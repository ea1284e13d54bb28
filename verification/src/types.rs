//! Plain value types shared by the engine.

use vstd::prelude::*;

verus! {

/// Status of a request, or of one of its child operations.
#[derive(Clone, Copy, Debug, PartialEq, Eq, Structural)]
pub enum IoStatus {
    /// Not decided yet.
    Pending,
    /// Completed successfully.
    Success,
    /// Failed.
    Failed,
    /// The device layer ran out of resources; the whole request should be
    /// submitted again later.
    NoMemory,
}

/// Kind of operation a request carries.
#[derive(Clone, Copy, Debug, PartialEq, Eq, Structural)]
pub enum IoType {
    Invalid,
    Read,
    Write,
    Unmap,
    Flush,
    Reset,
    NvmeAdmin,
    NvmeIo,
    NvmeIoMd,
    WriteZeros,
    ZeroCopy,
    ZoneInfo,
    ZoneManagement,
    ZoneAppend,
    Compare,
    CompareAndWrite,
    Abort,
}

impl IoType {
    /// Operations that are sent to every writable child.
    pub open spec fn is_fan_out(self) -> bool {
        self == IoType::Write || self == IoType::WriteZeros || self == IoType::Reset || self
            == IoType::Unmap
    }

    /// Tells whether the operation is sent to every writable child.
    pub fn fans_out(self) -> (b: bool)
        ensures
            b == self.is_fan_out(),
    {
        match self {
            IoType::Write | IoType::WriteZeros | IoType::Reset | IoType::Unmap => true,
            _ => false,
        }
    }
}

/// Why a request, or the submission of one child operation, was refused.
#[derive(Clone, Copy, Debug, PartialEq, Eq, Structural)]
pub enum IoError {
    /// No child is available to read from.
    NoDevice,
    /// The device layer is out of resources; retry the whole request later.
    ResourceExhausted,
    /// The operation is not valid for the device; do not retry.
    InvalidArgument,
    /// The operation is not supported; do not retry.
    NotSupported,
    /// Any other rejection.
    Other,
}

/// Generic status code a device reports with a completed operation.
#[derive(Clone, Copy, Debug, PartialEq, Eq, Structural)]
pub enum GenericStatusCode {
    Success,
    InvalidOpcode,
    InvalidFieldInCommand,
    DataTransferError,
    AbortedPowerLoss,
    InternalDeviceError,
    AbortedByRequest,
    CapacityExceeded,
    NamespaceNotReady,
    Reserved,
}

/// What to do with a request after one of its child operations completed.
#[derive(Clone, Copy, Debug, PartialEq, Eq, Structural)]
pub enum Disposition {
    /// Every child operation has completed; finish the request with this
    /// status.
    Complete(IoStatus),
    /// Child operations are still in flight; nothing to do yet.
    Flying(IoStatus),
    /// Retire the child whose operation just completed; the request
    /// continues with this status.
    Retire(IoStatus),
    /// The counters are in a combination that no sequence of completions
    /// should produce; the request is finished as failed.
    Inconsistent,
}

} // verus!

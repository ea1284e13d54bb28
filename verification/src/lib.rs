//! I/O dispatch and completion engine of a mirrored block device.
//!
//! A nexus presents one logical block device over several replicas, its
//! children. Reads go to one child, writes and control operations to all of
//! them. This crate holds the decisions of that engine as plain state
//! machines: which child an operation is handed to next, what a child's
//! completion means for the request it belongs to, and how a failing child is
//! taken out of service. Performing the device operations is left to the
//! caller, who reports each outcome back.

pub mod types;
pub mod errno;
pub mod context;
pub mod child;
pub mod channel;
pub mod request;
pub mod nexus;
pub mod retire;
pub mod runs;
pub mod passes;
pub mod snapshot;

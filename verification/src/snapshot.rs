//! Snapshots of a nexus.

use crate::nexus::Nexus;
use vstd::prelude::*;

verus! {

/// A snapshot that was taken.
#[derive(Clone, Debug, PartialEq, Eq)]
pub struct Snapshot {
    /// Name of the nexus that the snapshot is of.
    pub nexus: String,
    /// The time that the device layer stamped the snapshot with.
    pub time: u64,
}

/// Why no snapshot was taken.
#[derive(Clone, Debug, PartialEq, Eq)]
pub enum Error {
    /// No handle to the nexus could be opened.
    FailedGetHandle,
    /// The device layer failed to take the snapshot.
    FailedCreateSnapshot {
        /// Name of the nexus.
        name: String,
        /// The error number that the device layer gave.
        source: i32,
    },
}

impl Nexus {
    /// Says what came of a snapshot of this nexus. `attempt` is `None` if no
    /// handle to the nexus could be opened; otherwise it holds what the
    /// device layer answered: the time stamp of the snapshot, or an error
    /// number.
    pub fn create_snapshot(&self, attempt: Option<Result<u64, i32>>) -> (reply: Result<
        Snapshot,
        Error,
    >)
        ensures
            match attempt {
                None => reply == Err::<Snapshot, Error>(Error::FailedGetHandle),
                Some(Ok(time)) => reply matches Ok(s) && s.nexus@ == self@.name && s.time == time,
                Some(Err(code)) => reply matches Err(Error::FailedCreateSnapshot { name, source })
                    && name@ == self@.name && source == code,
            },
    {
        match attempt {
            None => Err(Error::FailedGetHandle),
            Some(Ok(time)) => Ok(Snapshot { nexus: self.name().clone(), time }),
            Some(Err(code)) => Err(
                Error::FailedCreateSnapshot { name: self.name().clone(), source: code },
            ),
        }
    }
}

} // verus!

//! Per-request counters and the decision taken after each child completion.

use crate::types::Disposition;
use crate::types::IoStatus;
use vstd::prelude::*;

verus! {

/// The counters of a request as mathematical values.
pub struct Counters {
    /// Aggregate status so far.
    pub status: IoStatus,
    /// Child operations that were accepted and have not completed yet.
    pub in_flight: nat,
    /// Child operations that completed successfully.
    pub num_ok: nat,
}

impl Counters {
    /// The decision table. It reads nothing but the status, whether
    /// operations are still in flight, and whether any child succeeded.
    pub open spec fn disposition(self) -> Disposition {
        match self.status {
            IoStatus::Pending => if self.in_flight == 0 {
                Disposition::Complete(IoStatus::Success)
            } else {
                Disposition::Flying(IoStatus::Success)
            },
            IoStatus::Failed => if self.in_flight != 0 {
                Disposition::Retire(IoStatus::Pending)
            } else if self.num_ok != 0 {
                Disposition::Retire(IoStatus::Success)
            } else {
                Disposition::Complete(IoStatus::Failed)
            },
            IoStatus::NoMemory => if self.in_flight == 0 {
                Disposition::Complete(IoStatus::NoMemory)
            } else {
                Disposition::Inconsistent
            },
            IoStatus::Success => Disposition::Inconsistent,
        }
    }

    /// The counters once a child completion has been counted, before the
    /// disposition is acted on.
    pub open spec fn counted(self, success: bool) -> Counters
        recommends
            self.in_flight > 0,
    {
        Counters {
            status: if success {
                self.status
            } else {
                IoStatus::Failed
            },
            in_flight: (self.in_flight - 1) as nat,
            num_ok: if success {
                self.num_ok + 1
            } else {
                self.num_ok
            },
        }
    }

    /// The disposition that a child completion leads to.
    pub open spec fn decided(self, success: bool) -> Disposition
        recommends
            self.in_flight > 0,
    {
        self.counted(success).disposition()
    }

    /// The counters after a child completion has been handled in full: a
    /// request that goes on after retiring a child is pending again.
    pub open spec fn completed(self, success: bool) -> Counters
        recommends
            self.in_flight > 0,
    {
        let c = self.counted(success);
        if c.disposition() == Disposition::Retire(IoStatus::Pending) {
            Counters { status: IoStatus::Pending, ..c }
        } else {
            c
        }
    }
}

impl Disposition {
    /// The status with which the request is finished, if this disposition
    /// finishes it.
    pub open spec fn answer(self) -> Option<IoStatus> {
        match self {
            Disposition::Complete(s) => Some(s),
            Disposition::Retire(IoStatus::Success) => Some(IoStatus::Success),
            Disposition::Inconsistent => Some(IoStatus::Failed),
            _ => None,
        }
    }

    /// Whether this disposition asks for the completing child to be retired.
    pub open spec fn retires(self) -> bool {
        self is Retire
    }

    /// The status to finish the request with, or `None` where the request
    /// goes on.
    pub fn finalizes(self) -> (a: Option<IoStatus>)
        ensures
            a == self.answer(),
    {
        match self {
            Disposition::Complete(s) => Some(s),
            Disposition::Retire(IoStatus::Success) => Some(IoStatus::Success),
            Disposition::Inconsistent => Some(IoStatus::Failed),
            _ => None,
        }
    }
}

/// Counters and affinity of one request.
#[derive(Clone, Copy, Debug, PartialEq, Eq)]
pub struct NioCtx {
    /// Child operations that were accepted and have not completed yet.
    pub in_flight: usize,
    /// Child operations that completed successfully.
    pub num_ok: usize,
    /// Aggregate status so far.
    pub status: IoStatus,
    /// The channel of the core that admitted the request.
    pub channel: usize,
    /// The core that admitted the request; only it may touch the context.
    pub core: u32,
}

impl View for NioCtx {
    type V = Counters;

    open spec fn view(&self) -> Counters {
        Counters {
            status: self.status,
            in_flight: self.in_flight as nat,
            num_ok: self.num_ok as nat,
        }
    }
}

impl NioCtx {
    /// The context of a request that was just admitted on `core`.
    pub fn new(channel: usize, core: u32) -> (ctx: NioCtx)
        ensures
            ctx == (NioCtx { in_flight: 0, num_ok: 0, status: IoStatus::Pending, channel, core }),
    {
        NioCtx { in_flight: 0, num_ok: 0, status: IoStatus::Pending, channel, core }
    }

    /// Determines what to do with the request, from its counters alone.
    pub fn disposition(&self) -> (d: Disposition)
        ensures
            d == self@.disposition(),
    {
        match self.status {
            IoStatus::Pending => {
                if self.in_flight == 0 {
                    Disposition::Complete(IoStatus::Success)
                } else {
                    Disposition::Flying(IoStatus::Success)
                }
            },
            IoStatus::Failed => {
                if self.in_flight != 0 {
                    Disposition::Retire(IoStatus::Pending)
                } else if self.num_ok != 0 {
                    Disposition::Retire(IoStatus::Success)
                } else {
                    Disposition::Complete(IoStatus::Failed)
                }
            },
            IoStatus::NoMemory => {
                if self.in_flight == 0 {
                    Disposition::Complete(IoStatus::NoMemory)
                } else {
                    Disposition::Inconsistent
                }
            },
            IoStatus::Success => Disposition::Inconsistent,
        }
    }
}

/// A request is answered when nothing is in flight, and only then, unless
/// its counters are inconsistent.
pub proof fn lemma_answered_when_idle(c: Counters)
    ensures
        c.in_flight == 0 ==> c.disposition().answer().is_some(),
        c.disposition().answer().is_some() ==> c.in_flight == 0 || c.disposition()
            == Disposition::Inconsistent,
        c.disposition().retires() ==> c.status == IoStatus::Failed,
{
}

/// What one completion does to the counters. It takes one operation out of
/// flight and counts a success. The status only gets worse, from pending to
/// failed, with one exception: a request that goes on after retiring a
/// child is pending again.
pub proof fn lemma_one_completion(c: Counters, success: bool)
    requires
        c.in_flight > 0,
    ensures
        c.completed(success).in_flight == c.in_flight - 1,
        c.completed(success).num_ok == c.num_ok + if success {
            1int
        } else {
            0int
        },
        c.completed(success).status == if c.decided(success) == Disposition::Retire(
            IoStatus::Pending,
        ) {
            IoStatus::Pending
        } else if success {
            c.status
        } else {
            IoStatus::Failed
        },
{
}

} // verus!

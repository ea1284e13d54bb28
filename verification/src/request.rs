//! A request to the nexus: its dispatch to the children and the handling of
//! their completions.

use crate::channel::ChannelView;
use crate::channel::NexusChannelInner;
use crate::context::Counters;
use crate::context::NioCtx;
use crate::errno::submit_result;
use crate::errno::submit_result_of;
use crate::nexus::Nexus;
use crate::types::Disposition;
use crate::types::GenericStatusCode;
use crate::types::IoError;
use crate::types::IoStatus;
use crate::types::IoType;
use vstd::prelude::*;

verus! {

/// A completed child operation, as the device layer reports it.
#[derive(Clone, Copy, Debug, PartialEq, Eq)]
pub struct ChildIo {
    /// The child that the operation was sent to.
    pub child: u64,
    /// The status code that the device reported.
    pub status: GenericStatusCode,
}

/// A request to take a child out of service. It names the nexus and the
/// child; both are looked up again when the request is acted on.
#[derive(Clone, Debug, PartialEq, Eq)]
pub struct RetireRequest {
    /// Name of the nexus.
    pub nexus: String,
    /// Identifier of the child.
    pub child: u64,
}

/// What the caller has to do after a child completion has been handled.
#[derive(Clone, Debug, PartialEq, Eq)]
pub struct Completion {
    /// The decision that was taken.
    pub disposition: Disposition,
    /// The status to finish the request with, if it is finished now.
    pub finalize: Option<IoStatus>,
    /// The retirement to schedule, if any.
    pub retire: Option<RetireRequest>,
}

/// The next move of a dispatch.
#[derive(Clone, Copy, Debug, PartialEq, Eq)]
pub enum Dispatch {
    /// Submit the operation to this child and report the return code.
    Submit(u64),
    /// Nothing more is submitted.
    Done {
        /// Whether the dispatch went through, or the error that ended it.
        result: Result<(), IoError>,
        /// The status to finish the request with, if it is finished now;
        /// `None` where completions are awaited.
        finalize: Option<IoStatus>,
    },
}

/// The tentative status of a request whose submissions ended with `error`.
pub open spec fn tentative(error: Option<IoError>) -> IoStatus {
    match error {
        None => IoStatus::Pending,
        Some(IoError::ResourceExhausted) => IoStatus::NoMemory,
        Some(_) => IoStatus::Failed,
    }
}

/// The result that a dispatch reports when its submissions ended with
/// `error`.
pub open spec fn reported(error: Option<IoError>) -> Result<(), IoError> {
    match error {
        None => Ok(()),
        Some(e) => Err(e),
    }
}

/// A request as a mathematical value.
pub struct BioView {
    /// Name of the nexus that the request was admitted to.
    pub nexus: Seq<char>,
    /// The operation.
    pub cmd: IoType,
    /// The counters.
    pub ctx: Counters,
    /// The channel of the admitting core.
    pub channel: usize,
    /// The admitting core.
    pub core: u32,
    /// The children that this dispatch submits to, in order.
    pub targets: Seq<u64>,
    /// How many of the targets have accepted the operation.
    pub cursor: nat,
    /// Whether the return code of a submission is awaited.
    pub awaiting: bool,
}

impl BioView {
    /// The invariant of a request.
    pub open spec fn wf(self) -> bool {
        &&& self.cursor <= self.targets.len()
        &&& self.ctx.status != IoStatus::Success
        &&& self.ctx.in_flight + self.ctx.num_ok <= self.cursor
        &&& self.awaiting ==> self.cursor < self.targets.len() && self.ctx == (Counters {
            status: IoStatus::Pending,
            in_flight: 0,
            num_ok: 0,
        })
    }

    /// A request that has been admitted and not dispatched yet.
    pub open spec fn fresh(self) -> bool {
        &&& !self.awaiting
        &&& self.cursor == 0
        &&& self.targets.len() == 0
        &&& self.ctx.status == IoStatus::Pending
    }

    /// The request once its submissions are over, `error` being the
    /// rejection that ended them, if one did. What was accepted is in
    /// flight, under the tentative status.
    pub open spec fn settled(self, error: Option<IoError>) -> BioView {
        BioView {
            awaiting: false,
            ctx: if self.cursor > 0 {
                Counters { status: tentative(error), in_flight: self.cursor, ..self.ctx }
            } else {
                self.ctx
            },
            ..self
        }
    }

    /// What the dispatch reports once its submissions are over. A request
    /// with operations in flight waits for them, whatever ended the pass. A
    /// request of which nothing was accepted is finished at once: as out of
    /// memory if that is why the submission was rejected, as failed
    /// otherwise.
    pub open spec fn verdict(self, error: Option<IoError>) -> Dispatch {
        Dispatch::Done {
            result: reported(error),
            finalize: if self.cursor > 0 {
                None
            } else if error == Some(IoError::ResourceExhausted) {
                Some(IoStatus::NoMemory)
            } else {
                Some(IoStatus::Failed)
            },
        }
    }

    /// The request at the start of a pass over `targets`.
    pub open spec fn aimed(self, targets: Seq<u64>) -> BioView {
        let begun = BioView { targets, cursor: 0, awaiting: targets.len() > 0, ..self };
        if targets.len() > 0 {
            begun
        } else {
            begun.settled(None)
        }
    }

    /// The first move of a pass over `targets`.
    pub open spec fn first_move(self, targets: Seq<u64>) -> Dispatch {
        if targets.len() > 0 {
            Dispatch::Submit(targets[0])
        } else {
            (BioView { targets, cursor: 0, ..self }).verdict(None)
        }
    }

    /// The request after the awaited submission returned `result`. An
    /// accepted submission moves on to the next target. A rejection ends the
    /// pass: the targets after it are not tried.
    pub open spec fn submitted(self, result: Result<(), IoError>) -> BioView
        recommends
            self.awaiting,
    {
        match result {
            Ok(_) => {
                let next = BioView { cursor: self.cursor + 1, ..self };
                if next.cursor < self.targets.len() {
                    next
                } else {
                    next.settled(None)
                }
            },
            Err(e) => self.settled(Some(e)),
        }
    }

    /// The move that follows the awaited submission's `result`.
    pub open spec fn next_move(self, result: Result<(), IoError>) -> Dispatch
        recommends
            self.awaiting,
    {
        match result {
            Ok(_) => {
                let next = BioView { cursor: self.cursor + 1, ..self };
                if next.cursor < self.targets.len() {
                    Dispatch::Submit(self.targets[next.cursor as int])
                } else {
                    next.verdict(None)
                }
            },
            Err(e) => self.verdict(Some(e)),
        }
    }

    /// The targets of a dispatch over `channel`: the reader whose turn it
    /// is for a read, every writer for a fan-out, none otherwise.
    pub open spec fn aim(self, channel: ChannelView) -> Seq<u64> {
        if self.cmd == IoType::Read {
            match channel.next_reader() {
                Some(i) => seq![channel.readers[i as int]],
                None => Seq::empty(),
            }
        } else if self.cmd.is_fan_out() {
            channel.writers
        } else {
            Seq::empty()
        }
    }

    /// Whether a dispatch over `channel` starts a pass: a fan-out does, and
    /// so does a read that has a reader.
    pub open spec fn submits(self, channel: ChannelView) -> bool {
        self.cmd.is_fan_out() || (self.cmd == IoType::Read && channel.readers.len() > 0)
    }

    /// The request after the first step of its dispatch over `channel`.
    pub open spec fn dispatched(self, channel: ChannelView) -> BioView {
        if self.submits(channel) {
            self.aimed(self.aim(channel))
        } else {
            self
        }
    }

    /// The first move of a dispatch over `channel`. Without a pass the
    /// request is finished at once: a read without a reader fails for want
    /// of a device, a flush succeeds, an admin command is invalid, and
    /// nothing else is supported.
    pub open spec fn dispatch(self, channel: ChannelView) -> Dispatch {
        if self.submits(channel) {
            self.first_move(self.aim(channel))
        } else if self.cmd == IoType::Read {
            Dispatch::Done { result: Err(IoError::NoDevice), finalize: Some(IoStatus::Failed) }
        } else if self.cmd == IoType::Flush {
            Dispatch::Done { result: Ok(()), finalize: Some(IoStatus::Success) }
        } else if self.cmd == IoType::NvmeAdmin {
            Dispatch::Done {
                result: Err(IoError::InvalidArgument),
                finalize: Some(IoStatus::Failed),
            }
        } else {
            Dispatch::Done { result: Err(IoError::NotSupported), finalize: Some(IoStatus::Failed) }
        }
    }

    /// The request after the completion of one of its child operations.
    pub open spec fn completed(self, success: bool) -> BioView
        recommends
            self.ctx.in_flight > 0,
    {
        BioView { ctx: self.ctx.completed(success), ..self }
    }
}

/// Whether a child whose operation completed with `status` is retired when
/// the disposition asks for it. A child that turned the operation down as
/// one it does not know is not a faulty child.
pub open spec fn retirable(status: GenericStatusCode) -> bool {
    status != GenericStatusCode::InvalidOpcode
}

/// A request to the nexus.
#[derive(Debug)]
pub struct NexusBio {
    nexus: String,
    cmd: IoType,
    ctx: NioCtx,
    targets: Vec<u64>,
    cursor: usize,
    awaiting: bool,
}

impl View for NexusBio {
    type V = BioView;

    closed spec fn view(&self) -> BioView {
        BioView {
            nexus: self.nexus@,
            cmd: self.cmd,
            ctx: self.ctx@,
            channel: self.ctx.channel,
            core: self.ctx.core,
            targets: self.targets@,
            cursor: self.cursor as nat,
            awaiting: self.awaiting,
        }
    }
}

impl NexusBio {
    /// The invariant of a request.
    pub open spec fn wf(&self) -> bool {
        self@.wf()
    }

    /// Admits a request for operation `cmd` to the nexus called `nexus`, on
    /// core `core` with its channel `channel`.
    pub fn nexus_bio_setup(nexus: String, cmd: IoType, channel: usize, core: u32) -> (bio: NexusBio)
        ensures
            bio.wf(),
            bio@.fresh(),
            bio@ == (BioView {
                nexus: nexus@,
                cmd,
                ctx: Counters { status: IoStatus::Pending, in_flight: 0, num_ok: 0 },
                channel,
                core,
                targets: Seq::empty(),
                cursor: 0,
                awaiting: false,
            }),
    {
        NexusBio {
            nexus,
            cmd,
            ctx: NioCtx::new(channel, core),
            targets: Vec::new(),
            cursor: 0,
            awaiting: false,
        }
    }

    /// The context of the request.
    pub fn ctx(&self) -> (ctx: &NioCtx)
        ensures
            ctx@ == self@.ctx,
            ctx.channel == self@.channel,
            ctx.core == self@.core,
    {
        &self.ctx
    }

    /// The operation of the request.
    pub fn cmd(&self) -> (cmd: IoType)
        ensures
            cmd == self@.cmd,
    {
        self.cmd
    }

    /// Determines what to do with the request, from its counters alone.
    pub fn disposition(&self) -> (d: Disposition)
        ensures
            d == self@.ctx.disposition(),
    {
        self.ctx.disposition()
    }

    /// The channel that the request was admitted on, among those of its
    /// nexus.
    pub fn inner_channel<'a>(&self, nexus: &'a mut Nexus) -> (channel: &'a mut NexusChannelInner)
        requires
            self@.channel < old(nexus)@.channels.len(),
        ensures
            channel@ == old(nexus)@.channels[self@.channel as int],
            final(nexus)@.name == old(nexus)@.name,
            final(nexus)@.children == old(nexus)@.children,
            final(nexus)@.paused == old(nexus)@.paused,
            final(nexus)@.channels =~= old(nexus)@.channels.update(
                self@.channel as int,
                final(channel)@,
            ),
    {
        nexus.channel_mut(self.ctx.channel)
    }

    /// The reader at position `i` of the channel that the request was
    /// admitted on.
    pub fn read_channel_at_index(&self, nexus: &Nexus, i: usize) -> (child: u64)
        requires
            self@.channel < nexus@.channels.len(),
            i < nexus@.channels[self@.channel as int].readers.len(),
        ensures
            child == nexus@.channels[self@.channel as int].readers[i as int],
    {
        nexus.channel(self.ctx.channel).readers()[i]
    }
}

impl NexusBio {
    /// Ends the pass: what was accepted is recorded as in flight under the
    /// tentative status, and a request of which nothing was accepted is
    /// finished at once.
    fn settle(&mut self, error: Option<IoError>) -> (next: Dispatch)
        requires
            old(self)@.cursor <= old(self)@.targets.len(),
            old(self)@.ctx == (Counters { status: IoStatus::Pending, in_flight: 0, num_ok: 0 }),
        ensures
            final(self).wf(),
            final(self)@ == old(self)@.settled(error),
            next == old(self)@.verdict(error),
    {
        self.awaiting = false;
        let result = match error {
            None => Ok(()),
            Some(e) => Err(e),
        };
        if self.cursor != 0 {
            self.ctx.in_flight = self.cursor;
            self.ctx.status = match error {
                None => IoStatus::Pending,
                Some(IoError::ResourceExhausted) => IoStatus::NoMemory,
                Some(_) => IoStatus::Failed,
            };
            Dispatch::Done { result, finalize: None }
        } else {
            match error {
                Some(IoError::ResourceExhausted) => Dispatch::Done {
                    result,
                    finalize: Some(IoStatus::NoMemory),
                },
                _ => Dispatch::Done { result, finalize: Some(IoStatus::Failed) },
            }
        }
    }

    /// Starts a pass over `targets`.
    fn aim_at(&mut self, targets: Vec<u64>) -> (next: Dispatch)
        requires
            old(self).wf(),
            old(self)@.fresh(),
        ensures
            final(self).wf(),
            final(self)@ == old(self)@.aimed(targets@),
            next == old(self)@.first_move(targets@),
    {
        self.targets = targets;
        self.cursor = 0;
        if self.targets.len() > 0 {
            self.awaiting = true;
            Dispatch::Submit(self.targets[0])
        } else {
            self.settle(None)
        }
    }

    /// Dispatches a read to the reader whose turn it is. Without a reader
    /// the request fails at once and nothing is submitted.
    fn readv(&mut self, channel: &mut NexusChannelInner) -> (next: Dispatch)
        requires
            old(self).wf(),
            old(self)@.fresh(),
            old(self)@.cmd == IoType::Read,
        ensures
            final(self).wf(),
            final(self)@ == old(self)@.dispatched(old(channel)@),
            next == old(self)@.dispatch(old(channel)@),
            final(channel)@.readers == old(channel)@.readers,
            final(channel)@.writers == old(channel)@.writers,
            final(channel)@.previous == match old(channel)@.next_reader() {
                Some(i) => i,
                None => old(channel)@.previous,
            },
    {
        match channel.child_select() {
            Some(i) => {
                let mut targets: Vec<u64> = Vec::new();
                targets.push(channel.readers()[i]);
                self.aim_at(targets)
            },
            None => Dispatch::Done {
                result: Err(IoError::NoDevice),
                finalize: Some(IoStatus::Failed),
            },
        }
    }

    /// Dispatches the operation to every writer of the channel, in order.
    fn submit_all(&mut self, channel: &NexusChannelInner) -> (next: Dispatch)
        requires
            old(self).wf(),
            old(self)@.fresh(),
            old(self)@.cmd.is_fan_out(),
        ensures
            final(self).wf(),
            final(self)@ == old(self)@.dispatched(channel@),
            next == old(self)@.dispatch(channel@),
    {
        let writers = channel.writers();
        let mut targets: Vec<u64> = Vec::new();
        let mut i: usize = 0;
        while i < writers.len()
            invariant
                i <= writers.len(),
                targets@ == writers@.take(i as int),
            decreases writers.len() - i,
        {
            targets.push(writers[i]);
            proof {
                assert(writers@.take(i + 1) =~= writers@.take(i as int).push(writers@[i as int]));
            }
            i += 1;
        }
        proof {
            assert(writers@.take(writers.len() as int) =~= writers@);
        }
        self.aim_at(targets)
    }

    /// Records the outcome of the awaited submission and says what comes
    /// next: the next child, or the end of the pass.
    pub fn submission_result(&mut self, result: Result<(), IoError>) -> (next: Dispatch)
        requires
            old(self).wf(),
            old(self)@.awaiting,
        ensures
            final(self).wf(),
            final(self)@ == old(self)@.submitted(result),
            next == old(self)@.next_move(result),
    {
        match result {
            Ok(_) => {
                assert(self.cursor < self.targets.len());
                self.cursor = self.cursor + 1;
                if self.cursor < self.targets.len() {
                    Dispatch::Submit(self.targets[self.cursor])
                } else {
                    self.settle(None)
                }
            },
            Err(e) => self.settle(Some(e)),
        }
    }

    /// Records the return code of the awaited submission and says what
    /// comes next.
    pub fn submitted(&mut self, rc: i32) -> (next: Dispatch)
        requires
            old(self).wf(),
            old(self)@.awaiting,
        ensures
            final(self).wf(),
            final(self)@ == old(self)@.submitted(submit_result_of(rc)),
            next == old(self)@.next_move(submit_result_of(rc)),
    {
        let result = submit_result(rc);
        self.submission_result(result)
    }

    /// Names the child of a failed operation for retirement, unless the
    /// device reported that it turned the operation down as one it does not
    /// know.
    pub fn try_retire(&self, child_io: &ChildIo) -> (retire: Option<RetireRequest>)
        ensures
            retire.is_some() == retirable(child_io.status),
            retire matches Some(r) ==> r.nexus@ == self@.nexus && r.child == child_io.child,
    {
        if child_io.status != GenericStatusCode::InvalidOpcode {
            Some(RetireRequest { nexus: self.nexus.clone(), child: child_io.child })
        } else {
            None
        }
    }

    /// Handles the completion of one child operation. `core` is the core
    /// that the caller runs on, which must be the one that admitted the
    /// request. The child operation is consumed: it is released here, once,
    /// whatever the disposition.
    pub fn complete(&mut self, child_io: ChildIo, success: bool, core: u32) -> (done: Completion)
        requires
            old(self).wf(),
            old(self)@.ctx.in_flight > 0,
            core == old(self)@.core,
        ensures
            final(self).wf(),
            final(self)@ == old(self)@.completed(success),
            done.disposition == old(self)@.ctx.decided(success),
            done.finalize == done.disposition.answer(),
            done.retire.is_some() == (done.disposition.retires() && retirable(child_io.status)),
            done.retire matches Some(r) ==> r.nexus@ == old(self)@.nexus && r.child
                == child_io.child,
    {
        self.ctx.in_flight = self.ctx.in_flight - 1;
        if !success {
            self.ctx.status = IoStatus::Failed;
        } else {
            self.ctx.num_ok = self.ctx.num_ok + 1;
        }
        let disposition = self.disposition();
        let finalize = disposition.finalizes();
        let retire = match disposition {
            Disposition::Retire(status) => {
                if status == IoStatus::Pending {
                    self.ctx.status = IoStatus::Pending;
                }
                self.try_retire(&child_io)
            },
            _ => None,
        };
        Completion { disposition, finalize, retire }
    }
}

/// Dispatches a freshly admitted request over the channel of its core. A
/// read goes to one reader; a write, write-zeroes, unmap or reset goes to
/// every writer; a flush succeeds at once; everything else is refused.
pub fn nexus_submit_io(io: &mut NexusBio, channel: &mut NexusChannelInner) -> (next: Dispatch)
    requires
        old(io).wf(),
        old(io)@.fresh(),
    ensures
        final(io).wf(),
        final(io)@ == old(io)@.dispatched(old(channel)@),
        next == old(io)@.dispatch(old(channel)@),
        final(channel)@.readers == old(channel)@.readers,
        final(channel)@.writers == old(channel)@.writers,
        final(channel)@.previous == if old(io)@.cmd == IoType::Read {
            match old(channel)@.next_reader() {
                Some(i) => i,
                None => old(channel)@.previous,
            }
        } else {
            old(channel)@.previous
        },
{
    match io.cmd() {
        IoType::Read => io.readv(channel),
        IoType::Write | IoType::WriteZeros | IoType::Reset | IoType::Unmap => io.submit_all(
            channel,
        ),
        IoType::Flush => Dispatch::Done { result: Ok(()), finalize: Some(IoStatus::Success) },
        IoType::NvmeAdmin => Dispatch::Done {
            result: Err(IoError::InvalidArgument),
            finalize: Some(IoStatus::Failed),
        },
        _ => Dispatch::Done { result: Err(IoError::NotSupported), finalize: Some(IoStatus::Failed) },
    }
}

} // verus!

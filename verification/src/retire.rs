//! Taking a failing child out of service.
//!
//! A retirement runs beside the requests of the nexus and never holds one
//! up. It is a sequence of steps, each of which waits for outside work:
//! pausing admission, rebuilding the channels of all cores, destroying the
//! child's resource, resuming admission. `Retirement::child_retire` takes
//! the event that ended the wait, brings the nexus up to date and says what
//! to do next. The nexus is looked up again by the caller before every step
//! and may have gone in the meantime.

use crate::channel::is_usable;
use crate::channel::usable;
use crate::child::ChildState;
use crate::child::ChildView;
use crate::child::Reason;
use crate::nexus::distinct;
use crate::nexus::lemma_position;
use crate::nexus::position;
use crate::nexus::status_of;
use crate::nexus::DrEvent;
use crate::nexus::Nexus;
use crate::nexus::NexusStatus;
use crate::nexus::NexusView;
use crate::request::RetireRequest;
use vstd::prelude::*;

verus! {

/// What a retirement waits for.
#[derive(Clone, Copy, Debug, PartialEq, Eq, Structural)]
pub enum RetirePhase {
    /// Not started.
    Start,
    /// Admission to the nexus is being paused.
    Pausing,
    /// The cores are rebuilding their channels.
    Rebuilding,
    /// The child's resource is being destroyed.
    Destroying,
    /// Admission to the nexus is being resumed.
    Resuming,
    /// Over: completed or abandoned.
    Finished,
}

/// What happened outside since the last step.
#[derive(Clone, Copy, Debug, PartialEq, Eq, Structural)]
pub enum RetireEvent {
    /// The retirement was scheduled.
    Begin,
    /// Admission is paused.
    Paused,
    /// Every core has rebuilt its channel.
    Reconfigured,
    /// The child's resource was destroyed, or, with `false`, could not be.
    Destroyed(bool),
    /// Admission is resumed.
    Resumed,
}

/// What the caller has to do next.
#[derive(Clone, Copy, Debug, PartialEq, Eq, Structural)]
pub enum RetireAction {
    /// Pause admission to the nexus, then report `Paused`.
    Pause,
    /// Have every core rebuild its channel, then report `Reconfigured`.
    Reconfigure(DrEvent),
    /// Destroy the resource of this child, then report `Destroyed`.
    Destroy(u64),
    /// Resume admission to the nexus, then report `Resumed`.
    Resume,
    /// The retirement is complete; the nexus has this status.
    Done(NexusStatus),
    /// There is nothing to do, or nothing more.
    Abandon,
}

/// A retirement as a mathematical value.
pub struct RetirementView {
    /// Name of the nexus.
    pub nexus: Seq<char>,
    /// Identifier of the child.
    pub child: u64,
    /// What the retirement waits for.
    pub phase: RetirePhase,
}

impl RetirementView {
    /// Whether `event` is the one that the retirement waits for.
    pub open spec fn expects(self, event: RetireEvent) -> bool {
        match (self.phase, event) {
            (RetirePhase::Start, RetireEvent::Begin) => true,
            (RetirePhase::Pausing, RetireEvent::Paused) => true,
            (RetirePhase::Rebuilding, RetireEvent::Reconfigured) => true,
            (RetirePhase::Destroying, RetireEvent::Destroyed(_)) => true,
            (RetirePhase::Resuming, RetireEvent::Resumed) => true,
            _ => false,
        }
    }

    /// Whether the lookup found the nexus that the retirement is for.
    pub open spec fn resolves(self, nexus: Option<NexusView>) -> bool {
        nexus matches Some(n) && n.name == self.nexus
    }

    /// Whether the child passes the guard at the start: it is there and it
    /// is open.
    pub open spec fn passes(self, nexus: NexusView) -> bool {
        position(nexus.children, self.child) matches Some(c) && nexus.children[c].state
            == ChildState::Open
    }

    /// The nexus after the step for `event`.
    pub open spec fn applied(self, nexus: NexusView, event: RetireEvent) -> NexusView {
        match event {
            RetireEvent::Begin => match position(nexus.children, self.child) {
                Some(c) => if nexus.children[c].state == ChildState::Open {
                    nexus.with_state(c, ChildState::Faulted(Reason::IoError))
                } else {
                    nexus
                },
                None => nexus,
            },
            RetireEvent::Paused => NexusView { paused: true, ..nexus },
            RetireEvent::Reconfigured => nexus.reconfigured(),
            RetireEvent::Destroyed(destroyed) => match position(nexus.children, self.child) {
                Some(c) => if destroyed {
                    nexus.without(c)
                } else {
                    nexus
                },
                None => nexus,
            },
            RetireEvent::Resumed => NexusView { paused: false, ..nexus },
        }
    }

    /// What the step for `event` asks of the caller.
    pub open spec fn action(self, nexus: Option<NexusView>, event: RetireEvent) -> RetireAction {
        if !self.resolves(nexus) {
            RetireAction::Abandon
        } else {
            match event {
                RetireEvent::Begin => if self.passes(nexus.unwrap()) {
                    RetireAction::Pause
                } else {
                    RetireAction::Abandon
                },
                RetireEvent::Paused => RetireAction::Reconfigure(DrEvent::ChildFault),
                RetireEvent::Reconfigured => RetireAction::Destroy(self.child),
                RetireEvent::Destroyed(_) => RetireAction::Resume,
                RetireEvent::Resumed => RetireAction::Done(
                    status_of(self.applied(nexus.unwrap(), event).children),
                ),
            }
        }
    }

    /// What the retirement waits for after an action.
    pub open spec fn awaited(action: RetireAction) -> RetirePhase {
        match action {
            RetireAction::Pause => RetirePhase::Pausing,
            RetireAction::Reconfigure(_) => RetirePhase::Rebuilding,
            RetireAction::Destroy(_) => RetirePhase::Destroying,
            RetireAction::Resume => RetirePhase::Resuming,
            RetireAction::Done(_) => RetirePhase::Finished,
            RetireAction::Abandon => RetirePhase::Finished,
        }
    }

    /// The retirement after the step for `event`.
    pub open spec fn stepped(self, nexus: Option<NexusView>, event: RetireEvent) -> RetirementView {
        RetirementView { phase: Self::awaited(self.action(nexus, event)), ..self }
    }
}

/// The retirement of one child of one nexus.
#[derive(Debug)]
pub struct Retirement {
    nexus: String,
    child: u64,
    phase: RetirePhase,
}

impl View for Retirement {
    type V = RetirementView;

    closed spec fn view(&self) -> RetirementView {
        RetirementView { nexus: self.nexus@, child: self.child, phase: self.phase }
    }
}

impl Retirement {
    /// A retirement that has not started.
    pub fn new(request: RetireRequest) -> (job: Retirement)
        ensures
            job@ == (RetirementView {
                nexus: request.nexus@,
                child: request.child,
                phase: RetirePhase::Start,
            }),
    {
        Retirement { nexus: request.nexus, child: request.child, phase: RetirePhase::Start }
    }

    /// The name of the nexus, to look it up by.
    pub fn nexus(&self) -> (name: &String)
        ensures
            name@ == self@.nexus,
    {
        &self.nexus
    }

    /// The identifier of the child.
    pub fn child(&self) -> (child: u64)
        ensures
            child == self@.child,
    {
        self.child
    }

    /// What the retirement waits for.
    pub fn phase(&self) -> (phase: RetirePhase)
        ensures
            phase == self@.phase,
    {
        self.phase
    }

    /// Whether `event` is the one that the retirement waits for.
    pub fn expects(&self, event: RetireEvent) -> (b: bool)
        ensures
            b == self@.expects(event),
    {
        match (self.phase, event) {
            (RetirePhase::Start, RetireEvent::Begin) => true,
            (RetirePhase::Pausing, RetireEvent::Paused) => true,
            (RetirePhase::Rebuilding, RetireEvent::Reconfigured) => true,
            (RetirePhase::Destroying, RetireEvent::Destroyed(_)) => true,
            (RetirePhase::Resuming, RetireEvent::Resumed) => true,
            _ => false,
        }
    }

    /// Takes the next step of the retirement. `nexus` is what the lookup by
    /// name gave just now, `event` what happened since the last step.
    ///
    /// At the start the child is looked up and its state is moved from open
    /// to faulted in one step; a retirement that finds the child gone, or
    /// in any state but open, is abandoned, so that of several retirements
    /// of one child only one goes on. A nexus that is gone ends the
    /// retirement at any step. A resource that could not be destroyed
    /// leaves the child in the nexus, faulted and out of every channel.
    pub fn child_retire(&mut self, nexus: Option<&mut Nexus>, event: RetireEvent) -> (action:
        RetireAction)
        requires
            old(self)@.expects(event),
        ensures
            match nexus {
                Some(n) => {
                    &&& action == old(self)@.action(Some(n@), event)
                    &&& final(self)@ == old(self)@.stepped(Some(n@), event)
                    &&& final(n)@ == if old(self)@.resolves(Some(n@)) {
                        old(self)@.applied(n@, event)
                    } else {
                        n@
                    }
                },
                None => {
                    &&& action == RetireAction::Abandon
                    &&& final(self)@ == old(self)@.stepped(None, event)
                },
            },
    {
        let action = match nexus {
            None => RetireAction::Abandon,
            Some(n) => {
                if !n.name().eq(&self.nexus) {
                    RetireAction::Abandon
                } else {
                    match event {
                        RetireEvent::Begin => match n.child_lookup(self.child) {
                            None => RetireAction::Abandon,
                            Some(c) => {
                                let found = n.child_compare_and_swap(
                                    c,
                                    ChildState::Open,
                                    ChildState::Faulted(Reason::IoError),
                                );
                                if found == ChildState::Open {
                                    RetireAction::Pause
                                } else {
                                    RetireAction::Abandon
                                }
                            },
                        },
                        RetireEvent::Paused => {
                            n.pause();
                            RetireAction::Reconfigure(DrEvent::ChildFault)
                        },
                        RetireEvent::Reconfigured => {
                            n.reconfigure(DrEvent::ChildFault);
                            RetireAction::Destroy(self.child)
                        },
                        RetireEvent::Destroyed(destroyed) => {
                            if destroyed {
                                match n.child_lookup(self.child) {
                                    Some(c) => n.remove_child(c),
                                    None => {},
                                }
                            }
                            RetireAction::Resume
                        },
                        RetireEvent::Resumed => {
                            n.resume();
                            RetireAction::Done(n.status())
                        },
                    }
                }
            },
        };
        self.phase = match action {
            RetireAction::Pause => RetirePhase::Pausing,
            RetireAction::Reconfigure(_) => RetirePhase::Rebuilding,
            RetireAction::Destroy(_) => RetirePhase::Destroying,
            RetireAction::Resume => RetirePhase::Resuming,
            RetireAction::Done(_) => RetirePhase::Finished,
            RetireAction::Abandon => RetirePhase::Finished,
        };
        action
    }
}

/// Where a child is found depends on the identifiers alone.
proof fn lemma_position_by_id(a: Seq<ChildView>, b: Seq<ChildView>, id: u64)
    requires
        a.len() == b.len(),
        forall|i: int| 0 <= i < a.len() ==> a[i].id == b[i].id,
    ensures
        position(a, id) == position(b, id),
    decreases a.len(),
{
    if a.len() > 0 && a[0].id != id {
        lemma_position_by_id(a.drop_first(), b.drop_first(), id);
    }
}

/// Of two retirements of one child that start one after the other, only
/// one goes on. If the child is there and open, the first passes the
/// guard and leaves the child faulted; the second finds it so, is
/// abandoned and changes nothing. If the first does not pass, neither does
/// the second.
pub proof fn lemma_one_retirement_goes_on(
    first: RetirementView,
    second: RetirementView,
    nexus: NexusView,
)
    requires
        first.nexus == second.nexus,
        first.child == second.child,
        first.resolves(Some(nexus)),
    ensures
        ({
            let between = first.applied(nexus, RetireEvent::Begin);
            &&& second.resolves(Some(between))
            &&& first.action(Some(nexus), RetireEvent::Begin) == if first.passes(nexus) {
                RetireAction::Pause
            } else {
                RetireAction::Abandon
            }
            &&& first.passes(nexus) ==> between.children[position(
                nexus.children,
                first.child,
            ).unwrap()].state == ChildState::Faulted(Reason::IoError)
            &&& second.action(Some(between), RetireEvent::Begin) == RetireAction::Abandon
            &&& second.applied(between, RetireEvent::Begin) == between
        }),
{
    let between = first.applied(nexus, RetireEvent::Begin);
    lemma_position(nexus.children, first.child);
    lemma_position_by_id(nexus.children, between.children, first.child);
}

/// The guard stays shut. While no two children share an identifier, no
/// step of a retirement lets another retirement of the same child pass the
/// guard that it would not have passed before. With
/// `lemma_one_retirement_goes_on`: once a retirement has passed the guard,
/// no other retirement of that child passes it, however far the first has
/// come.
pub proof fn lemma_guard_stays_shut(
    first: RetirementView,
    second: RetirementView,
    nexus: NexusView,
    event: RetireEvent,
)
    requires
        distinct(nexus.children),
        first.child == second.child,
        !second.passes(nexus),
    ensures
        !second.passes(first.applied(nexus, event)),
{
    let then = first.applied(nexus, event);
    lemma_position(nexus.children, first.child);
    lemma_position(then.children, first.child);
}

/// The children that can take I/O do not include a child that is not
/// open.
proof fn lemma_unusable_left_out(children: Seq<ChildView>, c: int)
    requires
        distinct(children),
        0 <= c < children.len(),
        children[c].state != ChildState::Open,
    ensures
        !usable(children).contains(children[c].id),
{
    let open = children.filter(|x: ChildView| is_usable(x));
    let ids = usable(children);
    if ids.contains(children[c].id) {
        let k = choose|k: int| 0 <= k < ids.len() && ids[k] == children[c].id;
        assert(open[k].id == children[c].id);
        children.lemma_filter_pred(|x: ChildView| is_usable(x), k);
        assert(open.contains(open[k]));
        children.lemma_filter_contains_rev(|x: ChildView| is_usable(x), open[k]);
        let j = choose|j: int| 0 <= j < children.len() && children[j] == open[k];
        assert(j == c);
    }
}

/// A retired child takes no more I/O. Once a retirement has passed the
/// guard and the channels have been rebuilt, no channel holds the child,
/// whether or not its resource can be destroyed afterwards.
pub proof fn lemma_retired_child_left_out(job: RetirementView, nexus: NexusView, core: int)
    requires
        distinct(nexus.children),
        job.passes(nexus),
        0 <= core < nexus.channels.len(),
    ensures
        ({
            let faulted = job.applied(nexus, RetireEvent::Begin);
            let paused = job.applied(faulted, RetireEvent::Paused);
            let rebuilt = job.applied(paused, RetireEvent::Reconfigured);
            &&& paused.paused
            &&& rebuilt.channels.len() == nexus.channels.len()
            &&& !rebuilt.channels[core].readers.contains(job.child)
            &&& !rebuilt.channels[core].writers.contains(job.child)
            &&& forall|destroyed: bool|
                #![trigger job.applied(rebuilt, RetireEvent::Destroyed(destroyed))]
                job.applied(rebuilt, RetireEvent::Destroyed(destroyed)).channels
                    == rebuilt.channels
        }),
{
    let faulted = job.applied(nexus, RetireEvent::Begin);
    lemma_position(nexus.children, job.child);
    let c = position(nexus.children, job.child).unwrap();
    assert(distinct(faulted.children));
    lemma_unusable_left_out(faulted.children, c);
}

/// No step of a retirement gives two children the same identifier.
pub proof fn lemma_retirement_keeps_distinct(
    job: RetirementView,
    nexus: NexusView,
    event: RetireEvent,
)
    requires
        distinct(nexus.children),
    ensures
        distinct(job.applied(nexus, event).children),
{
    lemma_position(nexus.children, job.child);
}

} // verus!

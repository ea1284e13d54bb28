//! The nexus: its children, its per-core channels and its status.

use crate::channel::child_views;
use crate::channel::is_usable;
use crate::channel::usable;
use crate::channel::ChannelView;
use crate::channel::NexusChannelInner;
use crate::child::Child;
use crate::child::ChildState;
use crate::child::ChildView;
use vstd::prelude::*;

verus! {

/// Status of a nexus, as seen from outside.
#[derive(Clone, Copy, Debug, PartialEq, Eq, Structural)]
pub enum NexusStatus {
    /// Every child is usable.
    Online,
    /// Some child is usable and some child is not.
    Degraded,
    /// No child is usable.
    Faulted,
}

/// Why the channels are rebuilt.
#[derive(Clone, Copy, Debug, PartialEq, Eq, Structural)]
pub enum DrEvent {
    /// A child went offline.
    ChildOffline,
    /// A child was faulted.
    ChildFault,
    /// A child was removed.
    ChildRemove,
    /// A child is being rebuilt.
    ChildRebuild,
}

/// The position of the first child with identifier `id`.
pub open spec fn position(children: Seq<ChildView>, id: u64) -> Option<int>
    decreases children.len(),
{
    if children.len() == 0 {
        None
    } else if children[0].id == id {
        Some(0)
    } else {
        match position(children.drop_first(), id) {
            Some(i) => Some(i + 1),
            None => None,
        }
    }
}

/// `position` finds the first child with the identifier, or none if there
/// is no such child.
pub proof fn lemma_position(children: Seq<ChildView>, id: u64)
    ensures
        match position(children, id) {
            Some(i) => 0 <= i < children.len() && children[i].id == id && forall|j: int|
                0 <= j < i ==> children[j].id != id,
            None => forall|j: int| 0 <= j < children.len() ==> children[j].id != id,
        },
    decreases children.len(),
{
    if children.len() > 0 && children[0].id != id {
        let rest = children.drop_first();
        lemma_position(rest, id);
        match position(rest, id) {
            Some(i) => {
                assert forall|j: int| 0 <= j < i + 1 implies children[j].id != id by {
                    if j > 0 {
                        assert(children[j] == rest[j - 1]);
                    }
                }
            },
            None => {
                assert forall|j: int| 0 <= j < children.len() implies children[j].id != id by {
                    if j > 0 {
                        assert(children[j] == rest[j - 1]);
                    }
                }
            },
        }
    }
}

/// Whether no two children have the same identifier.
pub open spec fn distinct(children: Seq<ChildView>) -> bool {
    forall|i: int, j: int|
        0 <= i < j < children.len() ==> (#[trigger] children[i]).id != (#[trigger] children[j]).id
}

/// The status of a nexus with these children.
pub open spec fn status_of(children: Seq<ChildView>) -> NexusStatus {
    if forall|i: int| 0 <= i < children.len() ==> !is_usable(#[trigger] children[i]) {
        NexusStatus::Faulted
    } else if forall|i: int| 0 <= i < children.len() ==> is_usable(#[trigger] children[i]) {
        NexusStatus::Online
    } else {
        NexusStatus::Degraded
    }
}

/// A channel rebuilt over `children`.
pub open spec fn rebuilt(channel: ChannelView, children: Seq<ChildView>) -> ChannelView {
    ChannelView { readers: usable(children), writers: usable(children), ..channel }
}

/// A nexus as a mathematical value.
pub struct NexusView {
    /// Name under which the nexus is looked up.
    pub name: Seq<char>,
    /// The children, in order.
    pub children: Seq<ChildView>,
    /// The channels, one per core.
    pub channels: Seq<ChannelView>,
    /// Whether admission of new requests is paused.
    pub paused: bool,
}

impl NexusView {
    /// The nexus with every channel rebuilt over the children as they are.
    pub open spec fn reconfigured(self) -> NexusView {
        NexusView {
            channels: Seq::new(
                self.channels.len(),
                |i: int| rebuilt(self.channels[i], self.children),
            ),
            ..self
        }
    }

    /// The nexus with the state of child `i` set to `state`.
    pub open spec fn with_state(self, i: int, state: ChildState) -> NexusView
        recommends
            0 <= i < self.children.len(),
    {
        NexusView {
            children: self.children.update(i, ChildView { state, ..self.children[i] }),
            ..self
        }
    }

    /// The nexus without child `i`.
    pub open spec fn without(self, i: int) -> NexusView
        recommends
            0 <= i < self.children.len(),
    {
        NexusView { children: self.children.remove(i), ..self }
    }
}

/// A logical block device over several children.
#[derive(Debug)]
pub struct Nexus {
    name: String,
    children: Vec<Child>,
    channels: Vec<NexusChannelInner>,
    paused: bool,
}

impl View for Nexus {
    type V = NexusView;

    closed spec fn view(&self) -> NexusView {
        NexusView {
            name: self.name@,
            children: child_views(self.children@),
            channels: self.channels@.map_values(|c: NexusChannelInner| c@),
            paused: self.paused,
        }
    }
}

impl Nexus {
    /// A nexus without children, with one empty channel for each of `cores`
    /// cores.
    pub fn new(name: String, cores: usize) -> (nexus: Nexus)
        ensures
            nexus@.name == name@,
            nexus@.children == Seq::<ChildView>::empty(),
            nexus@.channels == Seq::new(cores as nat, |i: int| NexusChannelInner::new_view()),
            !nexus@.paused,
    {
        let mut channels: Vec<NexusChannelInner> = Vec::new();
        let mut i: usize = 0;
        while i < cores
            invariant
                i <= cores,
                channels@.len() == i,
                forall|j: int| 0 <= j < i ==> (#[trigger] channels@[j])@ == NexusChannelInner::new_view(),
            decreases cores - i,
        {
            channels.push(NexusChannelInner::new());
            i += 1;
        }
        let nexus = Nexus { name, children: Vec::new(), channels, paused: false };
        proof {
            assert(nexus@.channels =~= Seq::new(
                cores as nat,
                |i: int| NexusChannelInner::new_view(),
            ));
            assert(nexus@.children =~= Seq::<ChildView>::empty());
        }
        nexus
    }

    /// The name of the nexus.
    pub fn name(&self) -> (name: &String)
        ensures
            name@ == self@.name,
    {
        &self.name
    }

    /// How many children the nexus has.
    pub fn child_count(&self) -> (n: usize)
        ensures
            n == self@.children.len(),
    {
        self.children.len()
    }

    /// Whether admission of new requests is paused.
    pub fn is_paused(&self) -> (paused: bool)
        ensures
            paused == self@.paused,
    {
        self.paused
    }

    /// Finds the first child with identifier `id`.
    pub fn child_lookup(&self, id: u64) -> (found: Option<usize>)
        ensures
            found.is_some() == position(self@.children, id).is_some(),
            found matches Some(i) ==> position(self@.children, id) == Some(i as int) && i
                < self@.children.len() && self@.children[i as int].id == id,
    {
        let ghost views = self@.children;
        let mut i: usize = 0;
        while i < self.children.len()
            invariant
                i <= self.children.len(),
                views == self@.children,
                views.len() == self.children.len(),
                forall|j: int| 0 <= j < i ==> views[j].id != id,
            decreases self.children.len() - i,
        {
            assert(views[i as int] == self.children@[i as int]@);
            if self.children[i].id() == id {
                proof {
                    lemma_position(views, id);
                }
                return Some(i);
            }
            i += 1;
        }
        proof {
            lemma_position(views, id);
        }
        None
    }

    /// The state of the child at position `i`.
    pub fn child_state(&self, i: usize) -> (state: ChildState)
        requires
            i < self@.children.len(),
        ensures
            state == self@.children[i as int].state,
    {
        self.children[i].state()
    }

    /// The identifier of the child at position `i`.
    pub fn child_id(&self, i: usize) -> (id: u64)
        requires
            i < self@.children.len(),
        ensures
            id == self@.children[i as int].id,
    {
        self.children[i].id()
    }
}

impl Nexus {
    /// Adds an open child with identifier `id` at the end, unless a child
    /// with that identifier is there already. Returns whether it was added.
    /// The channels are left as they are until the next rebuild.
    pub fn add_child(&mut self, id: u64) -> (added: bool)
        ensures
            added == position(old(self)@.children, id).is_none(),
            final(self)@ == if added {
                NexusView {
                    children: old(self)@.children.push(ChildView { id, state: ChildState::Open }),
                    ..old(self)@
                }
            } else {
                old(self)@
            },
            distinct(old(self)@.children) ==> distinct(final(self)@.children),
    {
        proof {
            lemma_position(old(self)@.children, id);
        }
        if self.child_lookup(id).is_some() {
            return false;
        }
        let mut child = Child::new(id);
        child.open();
        self.children.push(child);
        proof {
            assert(final(self)@.children =~= old(self)@.children.push(
                ChildView { id, state: ChildState::Open },
            ));
            assert(final(self)@.channels =~= old(self)@.channels);
        }
        true
    }

    /// Sets the state of child `i` to `new` if it is `current`, in one
    /// step, and returns the state found.
    pub fn child_compare_and_swap(
        &mut self,
        i: usize,
        current: ChildState,
        new: ChildState,
    ) -> (found: ChildState)
        requires
            i < old(self)@.children.len(),
        ensures
            found == old(self)@.children[i as int].state,
            final(self)@ == if found == current {
                old(self)@.with_state(i as int, new)
            } else {
                old(self)@
            },
            distinct(old(self)@.children) ==> distinct(final(self)@.children),
    {
        let found = self.children[i].compare_and_swap(current, new);
        proof {
            assert(final(self)@.channels =~= old(self)@.channels);
            if found == current {
                assert(final(self)@.children =~= old(self)@.with_state(i as int, new).children);
            } else {
                assert(final(self)@.children =~= old(self)@.children);
            }
        }
        found
    }

    /// Removes child `i` from the nexus. The channels are left as they are
    /// until the next rebuild.
    pub fn remove_child(&mut self, i: usize)
        requires
            i < old(self)@.children.len(),
        ensures
            final(self)@ == old(self)@.without(i as int),
            distinct(old(self)@.children) ==> distinct(final(self)@.children),
    {
        self.children.remove(i);
        proof {
            assert(final(self)@.channels =~= old(self)@.channels);
            assert(final(self)@.children =~= old(self)@.children.remove(i as int));
        }
    }

    /// Stops the admission of new requests. Child operations in flight are
    /// not affected.
    pub fn pause(&mut self)
        ensures
            final(self)@ == (NexusView { paused: true, ..old(self)@ }),
    {
        self.paused = true;
    }

    /// Admits new requests again.
    pub fn resume(&mut self)
        ensures
            final(self)@ == (NexusView { paused: false, ..old(self)@ }),
    {
        self.paused = false;
    }

    /// Rebuilds the channel of every core over the children as they are
    /// now.
    pub fn reconfigure(&mut self, event: DrEvent)
        ensures
            final(self)@ == old(self)@.reconfigured(),
    {
        let mut i: usize = 0;
        while i < self.channels.len()
            invariant
                i <= self.channels.len(),
                self.channels.len() == old(self).channels.len(),
                self.children == old(self).children,
                self.name == old(self).name,
                self.paused == old(self).paused,
                forall|j: int|
                    0 <= j < i ==> (#[trigger] self.channels@[j])@ == rebuilt(
                        old(self).channels@[j]@,
                        old(self)@.children,
                    ),
                forall|j: int|
                    i <= j < self.channels.len() ==> #[trigger] self.channels@[j] == old(
                        self,
                    ).channels@[j],
            decreases self.channels.len() - i,
        {
            self.channels[i].refresh(&self.children);
            i += 1;
        }
        proof {
            assert(final(self)@.channels =~= old(self)@.reconfigured().channels);
        }
    }

    /// The status of the nexus: faulted without a usable child, online with
    /// usable children only, degraded otherwise.
    pub fn status(&self) -> (status: NexusStatus)
        ensures
            status == status_of(self@.children),
    {
        let ghost views = self@.children;
        let mut open: usize = 0;
        let mut i: usize = 0;
        while i < self.children.len()
            invariant
                i <= self.children.len(),
                open <= i,
                views == self@.children,
                views.len() == self.children.len(),
                open == 0 <==> forall|j: int| 0 <= j < i ==> !is_usable(#[trigger] views[j]),
                open == i <==> forall|j: int| 0 <= j < i ==> is_usable(#[trigger] views[j]),
            decreases self.children.len() - i,
        {
            assert(views[i as int] == self.children@[i as int]@);
            if self.children[i].state() == ChildState::Open {
                open += 1;
            }
            i += 1;
        }
        if open == 0 {
            NexusStatus::Faulted
        } else if open == self.children.len() {
            NexusStatus::Online
        } else {
            NexusStatus::Degraded
        }
    }

    /// How many cores the nexus has a channel for.
    pub fn channel_count(&self) -> (n: usize)
        ensures
            n == self@.channels.len(),
    {
        self.channels.len()
    }

    /// The channel of core `i`.
    pub fn channel(&self, i: usize) -> (channel: &NexusChannelInner)
        requires
            i < self@.channels.len(),
        ensures
            channel@ == self@.channels[i as int],
    {
        &self.channels[i]
    }

    /// The channel of core `i`, for dispatching a request over it.
    pub fn channel_mut(&mut self, i: usize) -> (channel: &mut NexusChannelInner)
        requires
            i < old(self)@.channels.len(),
        ensures
            channel@ == old(self)@.channels[i as int],
            final(self)@.name == old(self)@.name,
            final(self)@.children == old(self)@.children,
            final(self)@.paused == old(self)@.paused,
            final(self)@.channels =~= old(self)@.channels.update(i as int, final(channel)@),
    {
        &mut self.channels[i]
    }
}

} // verus!

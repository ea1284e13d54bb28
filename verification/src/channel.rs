//! The per-core view of the children that can take I/O.

use crate::child::Child;
use crate::child::ChildState;
use crate::child::ChildView;
use vstd::prelude::*;

verus! {

/// The children as mathematical values, in order.
pub open spec fn child_views(children: Seq<Child>) -> Seq<ChildView> {
    children.map_values(|c: Child| c@)
}

/// Whether a child can take I/O.
pub open spec fn is_usable(child: ChildView) -> bool {
    child.state == ChildState::Open
}

/// The identifiers of the children that can take I/O, in order.
pub open spec fn usable(children: Seq<ChildView>) -> Seq<u64> {
    children.filter(|c: ChildView| is_usable(c)).map_values(|c: ChildView| c.id)
}

/// A channel as a mathematical value.
pub struct ChannelView {
    /// Children to read from.
    pub readers: Seq<u64>,
    /// Children to write to.
    pub writers: Seq<u64>,
    /// Position among the readers that the last read went to.
    pub previous: nat,
}

impl ChannelView {
    /// The position that the next read goes to: round robin over the readers.
    pub open spec fn next_reader(self) -> Option<nat> {
        if self.readers.len() == 0 {
            None
        } else if self.previous + 1 < self.readers.len() {
            Some(self.previous + 1)
        } else {
            Some(0)
        }
    }
}

/// One core's view of the children of a nexus. It is replaced as a whole
/// when the set of children changes, never edited in part.
#[derive(Debug)]
pub struct NexusChannelInner {
    readers: Vec<u64>,
    writers: Vec<u64>,
    previous: usize,
}

impl View for NexusChannelInner {
    type V = ChannelView;

    closed spec fn view(&self) -> ChannelView {
        ChannelView {
            readers: self.readers@,
            writers: self.writers@,
            previous: self.previous as nat,
        }
    }
}

impl NexusChannelInner {
    /// The view of a channel without children.
    pub open spec fn new_view() -> ChannelView {
        ChannelView { readers: Seq::empty(), writers: Seq::empty(), previous: 0 }
    }

    /// A channel without children.
    pub fn new() -> (channel: NexusChannelInner)
        ensures
            channel@ == Self::new_view(),
    {
        NexusChannelInner { readers: Vec::new(), writers: Vec::new(), previous: 0 }
    }

    /// The children to read from.
    pub fn readers(&self) -> (readers: &Vec<u64>)
        ensures
            readers@ == self@.readers,
    {
        &self.readers
    }

    /// The children to write to.
    pub fn writers(&self) -> (writers: &Vec<u64>)
        ensures
            writers@ == self@.writers,
    {
        &self.writers
    }

    /// Rebuilds both sets from the children as they are now: every usable
    /// child, in the order of the nexus.
    pub fn refresh(&mut self, children: &Vec<Child>)
        ensures
            final(self)@.readers == usable(child_views(children@)),
            final(self)@.writers == usable(child_views(children@)),
            final(self)@.previous == old(self)@.previous,
    {
        let ghost views = child_views(children@);
        let ghost pred = |c: ChildView| is_usable(c);
        let ghost key = |c: ChildView| c.id;
        let mut readers: Vec<u64> = Vec::new();
        let mut writers: Vec<u64> = Vec::new();
        let mut i: usize = 0;
        assert(views.take(0) =~= Seq::<ChildView>::empty());
        while i < children.len()
            invariant
                i <= children.len(),
                views == child_views(children@),
                pred == |c: ChildView| is_usable(c),
                key == |c: ChildView| c.id,
                readers@ == views.take(i as int).filter(pred).map_values(key),
                writers@ == readers@,
            decreases children.len() - i,
        {
            proof {
                let before = views.take(i as int);
                assert(views.take(i + 1) =~= before.push(views[i as int]));
                before.lemma_filter_push(views[i as int], pred);
                before.filter(pred).lemma_push_map_commute(key, views[i as int]);
            }
            if children[i].state() == ChildState::Open {
                readers.push(children[i].id());
                writers.push(children[i].id());
            }
            i += 1;
        }
        assert(views.take(children.len() as int) =~= views);
        self.readers = readers;
        self.writers = writers;
    }

    /// Picks the reader for the next read, round robin. Returns its
    /// position among the readers, or `None` if there is no reader.
    pub fn child_select(&mut self) -> (picked: Option<usize>)
        ensures
            final(self)@.readers == old(self)@.readers,
            final(self)@.writers == old(self)@.writers,
            picked.is_some() == (old(self)@.readers.len() > 0),
            match picked {
                Some(i) => old(self)@.next_reader() == Some(i as nat) && final(self)@.previous
                    == i,
                None => final(self)@.previous == old(self)@.previous,
            },
    {
        if self.readers.len() == 0 {
            None
        } else {
            if self.previous < self.readers.len() - 1 {
                self.previous += 1;
            } else {
                self.previous = 0;
            }
            Some(self.previous)
        }
    }
}

} // verus!

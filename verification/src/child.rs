//! One replica of a nexus and its state.

use vstd::prelude::*;

verus! {

/// Why a child was faulted.
#[derive(Clone, Copy, Debug, PartialEq, Eq, Structural)]
pub enum Reason {
    /// No particular reason is known.
    Unknown,
    /// The child is out of sync with its peers.
    OutOfSync,
    /// The child could not be opened.
    CantOpen,
    /// Rebuilding the child failed.
    RebuildFailed,
    /// An operation sent to the child failed.
    IoError,
}

/// State of a child.
#[derive(Clone, Copy, Debug, PartialEq, Eq, Structural)]
pub enum ChildState {
    /// Created, not opened yet.
    Init,
    /// Open and taking part in I/O.
    Open,
    /// Taken out of service.
    Faulted(Reason),
    /// Closed.
    Closed,
}

/// A child as a mathematical value.
pub struct ChildView {
    /// Identifier under which the child is looked up.
    pub id: u64,
    /// Current state.
    pub state: ChildState,
}

/// One replica of a nexus.
#[derive(Debug)]
pub struct Child {
    id: u64,
    state: ChildState,
}

impl View for Child {
    type V = ChildView;

    closed spec fn view(&self) -> ChildView {
        ChildView { id: self.id, state: self.state }
    }
}

/// The state that a compare-and-swap leaves behind.
pub open spec fn swapped(state: ChildState, current: ChildState, new: ChildState) -> ChildState {
    if state == current {
        new
    } else {
        state
    }
}

impl Child {
    /// A child that has not been opened yet.
    pub fn new(id: u64) -> (child: Child)
        ensures
            child@ == (ChildView { id, state: ChildState::Init }),
    {
        Child { id, state: ChildState::Init }
    }

    /// The child's identifier.
    pub fn id(&self) -> (id: u64)
        ensures
            id == self@.id,
    {
        self.id
    }

    /// The child's state.
    pub fn state(&self) -> (state: ChildState)
        ensures
            state == self@.state,
    {
        self.state
    }

    /// Opens a child that is in its initial state; any other child is left
    /// as it is. Returns whether the child is open afterwards.
    pub fn open(&mut self) -> (opened: bool)
        ensures
            final(self)@.id == old(self)@.id,
            final(self)@.state == swapped(old(self)@.state, ChildState::Init, ChildState::Open),
            opened == (final(self)@.state == ChildState::Open),
    {
        if self.state == ChildState::Init {
            self.state = ChildState::Open;
        }
        self.state == ChildState::Open
    }

    /// Sets the state to `new` if it is `current`, and returns the state
    /// found. The exclusive borrow makes the exchange one indivisible step.
    pub fn compare_and_swap(&mut self, current: ChildState, new: ChildState) -> (found: ChildState)
        ensures
            found == old(self)@.state,
            final(self)@.id == old(self)@.id,
            final(self)@.state == swapped(old(self)@.state, current, new),
    {
        let found = self.state;
        if found == current {
            self.state = new;
        }
        found
    }
}

} // verus!

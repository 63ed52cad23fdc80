//! The two state buffers and the selector that says which one is read.

use vstd::prelude::*;

verus! {

/// One of the two state buffers. Both exist for the whole run and have the
/// size of the simulation domain.
#[derive(Clone, Copy, Debug, PartialEq, Eq, Structural)]
pub enum BufferId {
    A,
    B,
}

impl BufferId {
    /// The buffer that is not `self`.
    pub open spec fn other_spec(self) -> BufferId {
        match self {
            BufferId::A => BufferId::B,
            BufferId::B => BufferId::A,
        }
    }

    /// The buffer that is not `self`.
    #[verifier::when_used_as_spec(other_spec)]
    pub fn other(self) -> (id: BufferId)
        ensures
            id == self.other_spec(),
            id != self,
    {
        match self {
            BufferId::A => BufferId::B,
            BufferId::B => BufferId::A,
        }
    }
}

/// Which buffer is current, that is read and shown, and which is next, that
/// is written by the simulation pass and by the brush.
#[derive(Clone, Copy, Debug, PartialEq, Eq, Structural)]
pub struct DoubleBufferedState {
    pub a_current: bool,
}

impl DoubleBufferedState {
    /// The buffer that is read in this state.
    pub open spec fn current_spec(self) -> BufferId {
        if self.a_current {
            BufferId::A
        } else {
            BufferId::B
        }
    }

    /// The buffer that is written in this state.
    pub open spec fn next_spec(self) -> BufferId {
        self.current_spec().other_spec()
    }

    /// The state in which a run starts, and to which a reset returns: buffer
    /// A is current.
    pub open spec fn baseline() -> DoubleBufferedState {
        DoubleBufferedState { a_current: true }
    }

    /// The baseline state.
    pub fn new() -> (state: DoubleBufferedState)
        ensures
            state == Self::baseline(),
    {
        DoubleBufferedState { a_current: true }
    }

    /// The buffer to read: the one written in the frame before, or buffer A
    /// in the baseline state.
    #[verifier::when_used_as_spec(current_spec)]
    pub fn current(self) -> (id: BufferId)
        ensures
            id == self.current_spec(),
    {
        if self.a_current {
            BufferId::A
        } else {
            BufferId::B
        }
    }

    /// The buffer to write: never the one that `current` gives.
    #[verifier::when_used_as_spec(next_spec)]
    pub fn next(self) -> (id: BufferId)
        ensures
            id == self.next_spec(),
            id != self.current_spec(),
    {
        self.current().other()
    }

    /// The state after the roles of the two buffers are exchanged.
    pub open spec fn swapped(self) -> DoubleBufferedState {
        DoubleBufferedState { a_current: !self.a_current }
    }

    /// Exchanges the roles of the two buffers.
    pub fn swap(&mut self)
        ensures
            *final(self) == old(self).swapped(),
            final(self).current_spec() == old(self).next_spec(),
            final(self).next_spec() == old(self).current_spec(),
    {
        self.a_current = !self.a_current;
    }

    /// Returns to the baseline state. The caller clears both buffers.
    pub fn reset(&mut self)
        ensures
            *final(self) == Self::baseline(),
    {
        self.a_current = true;
    }
}

/// In every state one buffer is current and the other is next.
pub proof fn lemma_roles_are_distinct(state: DoubleBufferedState)
    ensures
        state.current_spec() != state.next_spec(),
        state.current_spec() == BufferId::A || state.next_spec() == BufferId::A,
        state.current_spec() == BufferId::B || state.next_spec() == BufferId::B,
{
}

/// A swap changes the state, and two swaps in a row restore it.
pub proof fn lemma_swap_twice(state: DoubleBufferedState)
    ensures
        state.swapped() != state,
        state.swapped().swapped() == state,
{
}

} // verus!

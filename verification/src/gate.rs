//! The readiness gate: the one-shot signal that holds the poller back until
//! the route directory has been loaded once.

use vstd::prelude::*;

verus! {

/// The state of a readiness gate. It goes from pending to fired, and never
/// back.
#[derive(Clone, Copy, PartialEq, Eq, Structural, Debug)]
pub enum GateState {
    Pending,
    Fired,
}

/// What a waiter at the readiness gate is told.
#[derive(Clone, Copy, PartialEq, Eq, Structural, Debug)]
pub enum Wait {
    /// The readiness gate has fired: the waiter goes on at once.
    Proceed,
    /// The readiness gate is pending: the waiter stays suspended until it
    /// fires.
    Suspend,
}

/// A one-shot signal with any number of waiters.
pub struct ReadinessGate {
    state: GateState,
}

impl View for ReadinessGate {
    type V = GateState;

    closed spec fn view(&self) -> GateState {
        self.state
    }
}

/// What a waiter is told at a gate in a given state.
pub open spec fn told(state: GateState) -> Wait {
    match state {
        GateState::Fired => Wait::Proceed,
        GateState::Pending => Wait::Suspend,
    }
}

impl ReadinessGate {
    /// A gate that has not fired.
    pub fn new() -> (gate: ReadinessGate)
        ensures
            gate@ == GateState::Pending,
    {
        ReadinessGate { state: GateState::Pending }
    }

    /// Whether the readiness gate has fired.
    pub fn is_fired(&self) -> (fired: bool)
        ensures
            fired == (self@ == GateState::Fired),
    {
        match self.state {
            GateState::Fired => true,
            GateState::Pending => false,
        }
    }

    /// Tells a waiter whether to go on or to stay suspended. Every waiter is
    /// told the same, whenever it asks: all go on once the readiness gate has
    /// fired.
    pub fn wait(&self) -> (verdict: Wait)
        ensures
            verdict == told(self@),
    {
        match self.state {
            GateState::Fired => Wait::Proceed,
            GateState::Pending => Wait::Suspend,
        }
    }

    /// Fires the readiness gate. On a gate that has fired this changes
    /// nothing. The result says whether this call made the transition, that is
    /// whether there are waiters to release.
    pub fn fire(&mut self) -> (released: bool)
        ensures
            final(self)@ == GateState::Fired,
            released == (old(self)@ == GateState::Pending),
    {
        let released = !self.is_fired();
        self.state = GateState::Fired;
        released
    }
}

} // verus!

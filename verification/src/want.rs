//! The backpressure signal between consumer and producer.
//!
//! A single-slot tri-state value propagated from the consumer side to the
//! producer side: `Pending` (producer must wait), `Ready` (producer may
//! proceed), `Closed` (terminal: the consumer is gone).

use vstd::prelude::*;

verus! {

/// Whether the producer may send before the consumer's first read.
///
/// In lazy mode the producer's readiness check stays pending until the
/// consumer has polled for data once; in eager mode it may proceed at once.
#[derive(Clone, Copy, Debug, PartialEq, Eq, Structural)]
pub enum DemandMode {
    /// The producer may send immediately.
    Eager,
    /// The producer waits for the first consumer read.
    Lazy,
}

/// The tri-state backpressure signal.
#[derive(Clone, Copy, Debug, PartialEq, Eq, Structural)]
pub enum WantState {
    /// The producer must wait.
    Pending,
    /// The producer may proceed.
    Ready,
    /// Terminal and sticky: the consumer side was dropped.
    Closed,
}

/// The signal's initial state for a demand mode: lazy starts pending, eager
/// starts ready.
pub open spec fn initial_want(mode: DemandMode) -> WantState {
    match mode {
        DemandMode::Eager => WantState::Ready,
        DemandMode::Lazy => WantState::Pending,
    }
}

/// What signalling readiness leaves of the state: `Closed` is sticky, every
/// other state becomes `Ready`. The pending-to-ready transition is
/// one-directional.
pub open spec fn signalled_ready(w: WantState) -> WantState {
    if w is Closed {
        WantState::Closed
    } else {
        WantState::Ready
    }
}

impl WantState {
    /// The initial state for a demand mode.
    pub fn initial(mode: DemandMode) -> (r: WantState)
        ensures
            r == initial_want(mode),
    {
        match mode {
            DemandMode::Eager => WantState::Ready,
            DemandMode::Lazy => WantState::Pending,
        }
    }

    /// The consumer polled for data: allow the producer to proceed. No
    /// transition leaves the terminal `Closed` state.
    pub fn signal_ready(&mut self)
        ensures
            *final(self) == signalled_ready(*old(self)),
    {
        match self {
            WantState::Closed => {},
            _ => {
                *self = WantState::Ready;
            },
        }
    }

    /// The consumer side was dropped: enter the terminal state.
    pub fn close(&mut self)
        ensures
            *final(self) == WantState::Closed,
    {
        *self = WantState::Closed;
    }
}

} // verus!

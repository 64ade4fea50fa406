//! The two flags by which an interrupt and the work loop agree on a
//! shutdown.
//!
//! The interrupt handler sets `cancelled` and then waits; the work loop sets
//! `finished` once it has written its report. Neither flag is ever cleared.

use vstd::prelude::*;

verus! {

/// Where a shutdown stands.
#[derive(Debug, Clone, Copy, PartialEq, Eq, Structural)]
pub enum CancelState {
    /// No cancellation has been requested.
    Running,
    /// Cancellation has been requested and the work loop has not finished.
    CancelRequested,
    /// Cancellation has been requested and the work loop has finished.
    Drained,
}

/// One of the two things that can happen to the flags.
#[derive(Debug, Clone, Copy, PartialEq, Eq, Structural)]
pub enum Signal {
    /// The interrupt arrived.
    Interrupt,
    /// The work loop has written its report and released what it held.
    LoopFinished,
}

/// The two flags, as they are at one moment.
#[derive(Debug, Clone, Copy, PartialEq, Eq, Structural)]
pub struct CancellationFlags {
    /// Set by the interrupt handler.
    pub cancelled: bool,
    /// Set by the work loop.
    pub finished: bool,
}

impl CancellationFlags {
    /// The state that the flags stand for.
    pub open spec fn state_spec(self) -> CancelState {
        if !self.cancelled {
            CancelState::Running
        } else if !self.finished {
            CancelState::CancelRequested
        } else {
            CancelState::Drained
        }
    }

    /// The flags after `signal`: an interrupt sets `cancelled`, the end of the
    /// work loop sets `finished`, and nothing is ever cleared.
    pub open spec fn after(self, signal: Signal) -> CancellationFlags {
        match signal {
            Signal::Interrupt => CancellationFlags { cancelled: true, ..self },
            Signal::LoopFinished => CancellationFlags { finished: true, ..self },
        }
    }

    /// The flags after `signals`, one after the other.
    pub open spec fn after_all(self, signals: Seq<Signal>) -> CancellationFlags
        decreases signals.len(),
    {
        if signals.len() == 0 {
            self
        } else {
            self.after_all(signals.drop_last()).after(signals.last())
        }
    }

    /// The flags before anything has happened.
    pub fn new() -> (flags: CancellationFlags)
        ensures
            flags == (CancellationFlags { cancelled: false, finished: false }),
            flags.state_spec() == CancelState::Running,
    {
        CancellationFlags { cancelled: false, finished: false }
    }

    /// The flags as they were just read.
    pub fn observed(cancelled: bool, finished: bool) -> (flags: CancellationFlags)
        ensures
            flags == (CancellationFlags { cancelled, finished }),
    {
        CancellationFlags { cancelled, finished }
    }

    /// Applies `signal` to the flags.
    pub fn apply(&mut self, signal: Signal)
        ensures
            *final(self) == old(self).after(signal),
    {
        match signal {
            Signal::Interrupt => {
                self.cancelled = true;
            },
            Signal::LoopFinished => {
                self.finished = true;
            },
        }
    }

    /// The interrupt arrived: cancellation is requested from now on.
    pub fn request_cancel(&mut self)
        ensures
            *final(self) == old(self).after(Signal::Interrupt),
    {
        self.cancelled = true;
    }

    /// The work loop has written its report: the interrupt handler may let
    /// the process end.
    pub fn mark_finished(&mut self)
        ensures
            *final(self) == old(self).after(Signal::LoopFinished),
    {
        self.finished = true;
    }

    /// The state that the flags stand for.
    pub fn state(&self) -> (state: CancelState)
        ensures
            state == self.state_spec(),
    {
        if !self.cancelled {
            CancelState::Running
        } else if !self.finished {
            CancelState::CancelRequested
        } else {
            CancelState::Drained
        }
    }

    /// Whether the interrupt handler may return. It must hold on until the
    /// work loop has finished, since its return ends the process.
    pub fn handler_may_return(&self) -> (may: bool)
        ensures
            may == self.finished,
    {
        self.finished
    }
}

/// A flag that is set stays set: whatever happens afterwards, a requested
/// cancellation is never withdrawn and a finished loop never unfinished.
pub proof fn law_flags_are_never_cleared(flags: CancellationFlags, signals: Seq<Signal>)
    ensures
        flags.cancelled ==> flags.after_all(signals).cancelled,
        flags.finished ==> flags.after_all(signals).finished,
    decreases signals.len(),
{
    if signals.len() > 0 {
        law_flags_are_never_cleared(flags, signals.drop_last());
    }
}

/// The shutdown only moves forward: from running to cancellation requested
/// to drained, never back.
pub proof fn law_shutdown_moves_forward(flags: CancellationFlags, signal: Signal)
    ensures
        ({
            let before = flags.state_spec();
            let after = flags.after(signal).state_spec();
            &&& before == CancelState::CancelRequested ==> after != CancelState::Running
            &&& before == CancelState::Drained ==> after == CancelState::Drained
            &&& signal == Signal::Interrupt ==> after != CancelState::Running
        }),
{
}

} // verus!

//! What an interrupt signal means: during a sleep it skips the current
//! interval by cancelling the wait; while idle it asks for the process
//! to end. The decision is driven solely by the shared status flag.

use vstd::prelude::*;
use cancellable_timer::Canceller;
use crate::clock::SleepStatusReader;
use crate::clock::canceller_cancel;

verus! {

/// What the interrupt handler does with one interrupt.
#[derive(PartialEq, Eq, Structural, Copy, Clone, Debug)]
pub enum InterruptAction {
    /// A sleep is in progress: request its early termination and keep
    /// the process running.
    CancelSleep,
    /// The system is idle (at the prompt): the process should end,
    /// successfully.
    ExitProcess,
}

/// The interrupt rule: a set status flag means "skip the current
/// interval", a clear one means "exit".
pub open spec fn interrupt_action(is_sleeping: bool) -> InterruptAction {
    if is_sleeping {
        InterruptAction::CancelSleep
    } else {
        InterruptAction::ExitProcess
    }
}

/// The receiving end of the interrupt signal: a reading handle onto
/// the shared status flag, and the cancellation handle paired with the
/// clock. Created once at startup and moved into the signal-handling
/// context; the clock itself stays with the driver.
pub struct InterruptHandler {
    status: SleepStatusReader,
    canceller: Canceller,
}

impl InterruptHandler {
    /// Joins a status reader with the cancellation handle paired with
    /// the clock that reader watches.
    pub fn new(status: SleepStatusReader, canceller: Canceller) -> (r: InterruptHandler) {
        InterruptHandler { status, canceller }
    }

    /// Handles one interrupt: observes the shared flag and takes the
    /// action the interrupt rule prescribes for that observation,
    /// returned as (observed flag, action taken). When the action is
    /// `CancelSleep` the cancellation request has already been issued,
    /// best-effort: a request that found no wait outstanding is a
    /// harmless race and is ignored. When it is `ExitProcess` the
    /// caller, who owns the process, is expected to end it.
    pub fn on_interrupt(&self) -> (r: (bool, InterruptAction))
        ensures
            r.1 == interrupt_action(r.0),
    {
        let observed = self.status.is_sleeping();
        if observed {
            let _ = self.cancel_pending();
            (observed, InterruptAction::CancelSleep)
        } else {
            (observed, InterruptAction::ExitProcess)
        }
    }

    /// Requests early termination of the current or next wait on the
    /// paired clock; safe to call at any time, any number of times.
    /// Returns whether the underlying primitive accepted the request;
    /// either answer is tolerated by every caller.
    pub fn cancel_pending(&self) -> (accepted: bool) {
        canceller_cancel(&self.canceller)
    }
}

} // verus!

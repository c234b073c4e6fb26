//! A blocking wait that can be cut short by a concurrently issued
//! cancellation request, together with the shared "currently sleeping"
//! flag that tells an interrupt handler what an interrupt means right now.
//!
//! The flag is advisory: the handler context only ever reads it, the
//! clock context only ever writes it, and a stale read is tolerated by
//! design (a cancellation with no wait outstanding is a no-op, and a
//! missed cancellation merely lets the wait run out). Relaxed atomic
//! access is therefore enough.

use vstd::prelude::*;
use std::sync::Arc;
use std::sync::atomic::AtomicBool;
use std::sync::atomic::Ordering;
use std::time::Duration;
use cancellable_timer::Timer;
use cancellable_timer::Canceller;

verus! {

#[verifier::external_type_specification]
#[verifier::external_body]
pub struct ExTimer(Timer);

#[verifier::external_type_specification]
#[verifier::external_body]
pub struct ExCanceller(Canceller);

/// Relies on cancellable_timer::Timer::new2: builds a timer and its
/// paired cancellation handle; may fail if the OS refuses the
/// underlying poll resources, so nothing is promised about which
/// variant comes back.
#[verifier::external_body]
fn timer_new() -> (r: Option<(Timer, Canceller)>) {
    Timer::new2().ok()
}

/// Relies on cancellable_timer::Timer::sleep: blocks the calling
/// context for the given number of seconds or until the paired
/// cancellation handle fires, then returns. Whether the wait ran its
/// full course depends on outside events, so the result is not pinned.
#[verifier::external_body]
fn timer_wait(timer: &mut Timer, secs: u64) -> (completed: bool) {
    timer.sleep(Duration::from_secs(secs)).is_ok()
}

/// Relies on cancellable_timer::Canceller::cancel: requests early
/// termination of the current or next wait on the paired timer; safe to
/// call at any time from any context. Whether a wait was actually
/// interrupted depends on outside events, so the result is not pinned.
#[verifier::external_body]
pub(crate) fn canceller_cancel(canceller: &Canceller) -> (accepted: bool) {
    canceller.cancel().is_ok()
}

/// The writing side of the shared "currently sleeping" flag, owned by
/// the clock context. `value()` is that context's knowledge of the
/// flag: the last value it stored. The handler context never writes,
/// so every read it makes observes one of these stores.
pub struct SleepStatus {
    cell: Arc<AtomicBool>,
    last_store: Ghost<bool>,
}

/// The reading side of the shared flag, handed to the interrupt
/// handler context. A read races with the writer's stores and may be
/// stale, so nothing is claimed about the value it observes.
pub struct SleepStatusReader {
    cell: Arc<AtomicBool>,
}

impl SleepStatus {
    /// The last value stored through this handle.
    pub closed spec fn value(&self) -> bool {
        self.last_store@
    }

    /// A fresh flag, initially clear: no sleep is in progress.
    pub fn new() -> (r: SleepStatus)
        ensures
            !r.value(),
    {
        SleepStatus { cell: Arc::new(AtomicBool::new(false)), last_store: Ghost(false) }
    }

    /// A reading handle onto the same flag, for the handler context.
    pub fn reader(&self) -> (r: SleepStatusReader) {
        SleepStatusReader { cell: self.cell.clone() }
    }

    /// Publishes `b` as the current status.
    pub fn set(&mut self, b: bool)
        ensures
            final(self).value() == b,
    {
        self.cell.store(b, Ordering::Relaxed);
        self.last_store = Ghost(b);
    }
}

impl SleepStatusReader {
    /// The flag as the reading context observes it. The observation
    /// races with the writer, so the result is advisory only.
    pub fn is_sleeping(&self) -> bool {
        self.cell.load(Ordering::Relaxed)
    }
}

/// A clock that sleeps for whole seconds, publishes through the shared
/// flag whether a wait is in progress, and lets a concurrently held
/// cancellation handle cut the wait short.
pub struct InterruptibleClock {
    timer: Timer,
    status: SleepStatus,
}

impl InterruptibleClock {
    /// Whether, as far as the clock context knows, a wait is in
    /// progress right now.
    pub closed spec fn is_sleeping(&self) -> bool {
        self.status.value()
    }

    /// A clock and its paired cancellation handle, or `None` when the
    /// OS refuses the underlying timer resources.
    pub fn new() -> (r: Option<(InterruptibleClock, Canceller)>)
        ensures
            r matches Some(p) ==> !p.0.is_sleeping(),
    {
        match timer_new() {
            Some((timer, canceller)) => {
                let clock = InterruptibleClock { timer, status: SleepStatus::new() };
                Some((clock, canceller))
            },
            None => None,
        }
    }

    /// A reading handle onto the clock's status flag.
    pub fn status_reader(&self) -> (r: SleepStatusReader) {
        self.status.reader()
    }

    /// Blocks for `secs` seconds, or less if the paired cancellation
    /// handle fires first; cancellation and natural completion are
    /// deliberately not distinguished. The status flag is set for the
    /// duration of the wait and is clear again when this returns,
    /// whichever way the wait ended.
    pub fn sleep(&mut self, secs: u64)
        ensures
            !final(self).is_sleeping(),
    {
        self.status.set(true);
        self.wait_while_flagged(secs);
    }

    /// The wait primitive runs only while the status flag is set; the
    /// flag is cleared again on every exit path.
    fn wait_while_flagged(&mut self, secs: u64)
        requires
            old(self).is_sleeping(),
        ensures
            !final(self).is_sleeping(),
    {
        let _ = timer_wait(&mut self.timer, secs);
        self.status.set(false);
    }
}

} // verus!

//! The interval-sequencing state machine: a monotonic count of
//! completed intervals decides which interval comes next, in the
//! classic pattern Work, ShortBreak, Work, ShortBreak, Work, LongBreak,
//! repeating with period six.

use vstd::prelude::*;
use vstd::arithmetic::div_mod::lemma_fundamental_div_mod;
use vstd::arithmetic::div_mod::lemma_fundamental_div_mod_converse_mod;
use vstd::arithmetic::div_mod::lemma_mod_bound;
use vstd::arithmetic::div_mod::lemma_mod_multiples_vanish;
use crate::clock::InterruptibleClock;

verus! {

/// One timed phase of the cycle.
#[derive(PartialEq, Eq, Structural, PartialOrd, Ord, Copy, Clone, Debug)]
pub enum PomodoroStep {
    Work,
    ShortBreak,
    LongBreak,
}

/// The interval produced by the i-th advance from a fresh engine
/// (1-indexed): Work at every odd position, LongBreak at every
/// position divisible by six, ShortBreak at the rest.
pub open spec fn step_at(i: nat) -> PomodoroStep {
    if i % 2 == 1 {
        PomodoroStep::Work
    } else if i % 6 == 0 {
        PomodoroStep::LongBreak
    } else {
        PomodoroStep::ShortBreak
    }
}

/// The fixed duration of each interval kind, in seconds: 25 minutes of
/// work, a 5 minute short break, a 30 minute long break.
pub open spec fn step_duration(step: PomodoroStep) -> u64 {
    match step {
        PomodoroStep::Work => 1500,
        PomodoroStep::ShortBreak => 300,
        PomodoroStep::LongBreak => 1800,
    }
}

/// The announcement line printed for each interval kind.
pub open spec fn step_label(step: PomodoroStep) -> Seq<char> {
    match step {
        PomodoroStep::Work => "Time to work."@,
        PomodoroStep::ShortBreak => "Take a short break."@,
        PomodoroStep::LongBreak => "Take a long break."@,
    }
}

/// The announcement line for an interval kind, for the driver to
/// print when that interval is about to start.
pub fn label_of(step: PomodoroStep) -> (r: &'static str)
    ensures
        r@ == step_label(step),
{
    match step {
        PomodoroStep::Work => "Time to work.",
        PomodoroStep::ShortBreak => "Take a short break.",
        PomodoroStep::LongBreak => "Take a long break.",
    }
}

/// Which interval the i-th advance from a fresh engine produces, for
/// every position i from the first on: Work when i is odd, LongBreak
/// when i is even and divisible by six, ShortBreak when i is even and
/// not divisible by six.
pub proof fn lemma_step_at_characterization(i: nat)
    requires
        1 <= i,
    ensures
        i % 2 == 1 ==> step_at(i) == PomodoroStep::Work,
        i % 2 == 0 && i % 6 == 0 ==> step_at(i) == PomodoroStep::LongBreak,
        i % 2 == 0 && i % 6 != 0 ==> step_at(i) == PomodoroStep::ShortBreak,
{
}

/// The sequence of intervals is periodic with period six: every
/// position produces the same interval as the position six advances
/// later, so any block of six consecutive advances repeats any later
/// one call for call, and the engine has no hidden state beyond its
/// counter modulo six.
pub proof fn lemma_period(i: nat)
    requires
        1 <= i,
    ensures
        step_at(i + 6) == step_at(i),
{
    lemma_mod_multiples_vanish(3, i as int, 2);
    lemma_mod_multiples_vanish(1, i as int, 6);
}

/// How the stored counter moves under one advance: the counter holds
/// the advance count modulo six, and the parity and divisibility tests
/// made on the small counter agree with those on the full count.
proof fn lemma_counter_step(n: nat)
    ensures
        (n % 6 + 1) % 2 == (n + 1) % 2,
        n % 6 + 1 == 6 ==> (n + 1) % 6 == 0,
        n % 6 + 1 < 6 ==> (n + 1) % 6 == n % 6 + 1,
{
    let q = n as int / 6;
    let r = n as int % 6;
    lemma_mod_bound(n as int, 6);
    lemma_fundamental_div_mod(n as int, 6);
    assert(n as int + 1 == 2 * (3 * q) + (r + 1));
    lemma_mod_multiples_vanish(3 * q, r + 1, 2);
    if r + 1 == 6 {
        assert(n as int + 1 == 6 * (q + 1) + 0);
        lemma_fundamental_div_mod_converse_mod(n as int + 1, 6, q + 1, 0);
    } else {
        lemma_fundamental_div_mod_converse_mod(n as int + 1, 6, q, r + 1);
    }
    assert((n % 6 + 1) % 2 == (n + 1) % 2) by {
        lemma_mod_multiples_vanish(3 * q, r, 2);
    };
}

/// The sequencing state machine, joined to the clock it drives. The
/// engine is a pure function of how many advances it has seen; the
/// ghost `calls` field records that count in full, while the stored
/// counter keeps only its residue modulo six.
pub struct PomodoroTimer {
    work_duration: u64,
    short_break_duration: u64,
    long_break_duration: u64,
    clock: InterruptibleClock,
    step: PomodoroStep,
    counter: u8,
    calls: Ghost<nat>,
}

impl PomodoroTimer {
    /// How many advances this engine has performed.
    pub closed spec fn calls(&self) -> nat {
        self.calls@
    }

    /// The interval most recently produced; before the first advance, a
    /// placeholder that no caller following the intended protocol
    /// observes, since the first advance always yields Work.
    pub closed spec fn current_step(&self) -> PomodoroStep {
        self.step
    }

    /// Whether the clock this engine drives believes a wait is in
    /// progress.
    pub closed spec fn is_sleeping(&self) -> bool {
        self.clock.is_sleeping()
    }

    /// The engine's invariant: the stored counter is the advance count
    /// modulo six, the current step is the one the sequence prescribes,
    /// and the three durations are the fixed table.
    pub closed spec fn wf(&self) -> bool {
        &&& self.counter as nat == self.calls@ % 6
        &&& self.step == (if self.calls@ == 0 {
            PomodoroStep::ShortBreak
        } else {
            step_at(self.calls@)
        })
        &&& self.work_duration == step_duration(PomodoroStep::Work)
        &&& self.short_break_duration == step_duration(PomodoroStep::ShortBreak)
        &&& self.long_break_duration == step_duration(PomodoroStep::LongBreak)
    }

    /// A fresh engine around the given clock: no advances yet, the
    /// fixed duration table, and the internal placeholder step.
    pub fn new(clock: InterruptibleClock) -> (r: PomodoroTimer)
        ensures
            r.wf(),
            r.calls() == 0,
            r.current_step() == PomodoroStep::ShortBreak,
            r.is_sleeping() == clock.is_sleeping(),
    {
        PomodoroTimer {
            work_duration: 60 * 25,
            short_break_duration: 60 * 5,
            long_break_duration: 60 * 30,
            clock,
            step: PomodoroStep::ShortBreak,
            counter: 0,
            calls: Ghost(0),
        }
    }

    /// Consumes one "interval completed" event and moves to the next
    /// interval of the sequence: the i-th advance from a fresh engine
    /// produces exactly `step_at(i)`.
    pub fn next(&mut self)
        requires
            old(self).wf(),
        ensures
            final(self).wf(),
            final(self).calls() == old(self).calls() + 1,
            final(self).current_step() == step_at(old(self).calls() + 1),
            final(self).is_sleeping() == old(self).is_sleeping(),
    {
        proof {
            lemma_counter_step(old(self).calls@);
        }
        self.calls = Ghost((self.calls@ + 1) as nat);
        self.counter = self.counter + 1;

        if self.counter % 2 == 1 {
            self.step = PomodoroStep::Work;
            return;
        }

        if self.counter % 6 == 0 {
            self.counter = 0;
            self.step = PomodoroStep::LongBreak;
            return;
        }

        self.step = PomodoroStep::ShortBreak;
    }

    /// The interval most recently produced by `next`.
    pub fn get_step(&self) -> (r: PomodoroStep)
        ensures
            r == self.current_step(),
    {
        self.step
    }

    /// The duration table: the number of seconds this timer sleeps for
    /// each interval kind.
    pub fn duration_for(&self, step: PomodoroStep) -> (r: u64)
        requires
            self.wf(),
        ensures
            r == step_duration(step),
    {
        match step {
            PomodoroStep::Work => self.work_duration,
            PomodoroStep::ShortBreak => self.short_break_duration,
            PomodoroStep::LongBreak => self.long_break_duration,
        }
    }

    /// Blocks for the duration of the current interval, or less if the
    /// paired cancellation handle fires first. The sequencing state is
    /// untouched, and the shared status flag is clear again on return,
    /// whichever way the wait ended.
    pub fn sleep(&mut self)
        requires
            old(self).wf(),
        ensures
            final(self).wf(),
            final(self).calls() == old(self).calls(),
            final(self).current_step() == old(self).current_step(),
            !final(self).is_sleeping(),
    {
        let secs = self.duration_for(self.step);
        self.clock.sleep(secs);
    }
}

} // verus!

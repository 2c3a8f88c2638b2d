//! A logical clock: a count of seconds that moves only when told to.

use vstd::prelude::*;

verus! {

/// The sum of two times, held at the largest time a clock can show.
pub open spec fn capped_time(t: nat, d: nat) -> nat {
    if t + d > u64::MAX {
        u64::MAX as nat
    } else {
        t + d
    }
}

/// A clock that counts seconds and is advanced by its owner.
#[derive(Clone, Copy)]
pub struct TestClock {
    t: u64,
}

impl View for TestClock {
    type V = nat;

    /// The seconds the clock shows.
    closed spec fn view(&self) -> nat {
        self.t as nat
    }
}

impl Default for TestClock {
    fn default() -> (c: Self)
        ensures
            c@ == 0,
    {
        TestClock { t: 0 }
    }
}

impl TestClock {
    /// A clock that shows zero.
    pub fn new() -> (c: Self)
        ensures
            c@ == 0,
    {
        TestClock { t: 0 }
    }

    /// The seconds the clock shows.
    pub fn now(&self) -> (t: u64)
        ensures
            t == self@,
    {
        self.t
    }

    /// Moves the clock forward by `secs`, stopping at the largest time rather
    /// than wrapping. The clock never moves backward here.
    pub fn wait(&mut self, secs: u64)
        ensures
            final(self)@ == capped_time(old(self)@, secs as nat),
            final(self)@ >= old(self)@,
    {
        self.t = self.t.saturating_add(secs);
    }
}

/// The seconds that `clock` shows.
pub fn now(clock: &TestClock) -> (t: u64)
    ensures
        t == clock@,
{
    clock.now()
}

/// Moves `clock` forward by `secs`, stopping at the largest time.
pub fn wait(clock: &mut TestClock, secs: u64)
    ensures
        final(clock)@ == capped_time(old(clock)@, secs as nat),
        final(clock)@ >= old(clock)@,
{
    clock.wait(secs);
}

/// Sets `clock` to `ts`, whatever it showed before. Time may move backward.
pub fn clock_reset(clock: &mut TestClock, ts: u64)
    ensures
        final(clock)@ == ts,
{
    clock.t = ts;
}

/// Two waits in a row move a clock as far as one wait of their sum, up to the
/// largest time.
pub proof fn lemma_waits_accumulate(t: nat, a: nat, b: nat)
    requires
        t <= u64::MAX,
    ensures
        capped_time(capped_time(t, a), b) == capped_time(t, a + b),
        capped_time(t, a) >= t,
        capped_time(t, a) <= u64::MAX,
        t + a <= u64::MAX ==> capped_time(t, a) == t + a,
{
}

} // verus!

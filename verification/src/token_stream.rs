//! The executable account.
//!
//! [`TokenStream`] keeps the books of one account in integers. The caller
//! owns the decay curve: before an operation it reads [`TokenStream::principal`]
//! and [`TokenStream::elapsed`], evaluates the curve, rounds down, and passes
//! the result as `decayed`. The rate itself travels with the account as an
//! opaque bit pattern, so that a change of rate and the settlement it needs
//! are one step.

use vstd::prelude::*;
use crate::clock::TestClock;
use crate::model::{is_rate, StreamModel};

verus! {

/// Whether `bits` can serve as a decay rate: the binary64 pattern of a
/// positive, finite number.
pub fn is_valid_rate(bits: u64) -> (ok: bool)
    ensures
        ok == is_rate(bits),
{
    0 < bits && bits < 0x7FF0_0000_0000_0000u64
}

/// One account whose deposits vest along an exponential decay curve.
pub struct TokenStream {
    decay_rate_bits: u64,
    total_deposited: u128,
    total_claimed: u128,
    last_update_principal: u128,
    last_update_timestamp: u64,
}

impl View for TokenStream {
    type V = StreamModel;

    closed spec fn view(&self) -> StreamModel {
        StreamModel {
            rate_bits: self.decay_rate_bits,
            deposited: self.total_deposited as nat,
            claimed: self.total_claimed as nat,
            principal: self.last_update_principal as nat,
            stamp: self.last_update_timestamp as nat,
        }
    }
}

impl TokenStream {
    /// The account's invariant: its rate is positive and finite, its amounts
    /// fit, and no more has been claimed than was deposited.
    pub open spec fn wf(&self) -> bool {
        &&& is_rate(self@.rate_bits)
        &&& self@.in_range()
        &&& self@.claims_covered()
    }

    /// An empty account with the given decay rate, settled at the time that
    /// `clock` shows.
    pub fn new(decay_rate_bits: u64, clock: &TestClock) -> (s: Self)
        requires
            is_rate(decay_rate_bits),
        ensures
            s.wf(),
            s@ == StreamModel::fresh(decay_rate_bits, clock@),
    {
        TokenStream {
            decay_rate_bits,
            total_deposited: 0,
            total_claimed: 0,
            last_update_principal: 0,
            last_update_timestamp: clock.now(),
        }
    }

    /// Replaces the decay rate, with the rate that belongs to a new
    /// half-life. The account is settled first, so the old rate accounts for
    /// all the time up to now and the new one only for what follows.
    pub fn set_half_life(&mut self, clock: &TestClock, decayed: u128, decay_rate_bits: u64)
        requires
            old(self).wf(),
            is_rate(decay_rate_bits),
        ensures
            final(self).wf(),
            final(self)@ == old(self)@.with_rate(clock@, decayed as nat, decay_rate_bits),
    {
        self.settle(clock, decayed);
        self.decay_rate_bits = decay_rate_bits;
    }

    /// The decay rate, as the bit pattern it was given in.
    pub fn decay_rate_bits(&self) -> (bits: u64)
        ensures
            bits == self@.rate_bits,
    {
        self.decay_rate_bits
    }

    /// The principal as of the last settlement: what the decay curve starts
    /// from.
    pub fn principal(&self) -> (p: u128)
        ensures
            p == self@.principal,
    {
        self.last_update_principal
    }

    /// The seconds between the last settlement and the time that `clock`
    /// shows: how far along the decay curve the principal has moved. Zero
    /// where the clock shows an earlier time.
    pub fn elapsed(&self, clock: &TestClock) -> (dt: u64)
        ensures
            dt == self@.elapsed(clock@),
    {
        clock.now().saturating_sub(self.last_update_timestamp)
    }

    /// Everything ever deposited.
    pub fn total_deposited(&self) -> (amt: u128)
        ensures
            amt == self@.deposited,
    {
        self.total_deposited
    }

    /// Everything that has vested since the account was made, claimed or not.
    pub fn total_vested(&self, decayed: u128) -> (amt: u128)
        ensures
            amt == self@.total_vested(decayed as nat),
    {
        self.total_deposited.saturating_sub(self.balance_still_vesting(decayed))
    }

    /// Everything ever claimed.
    pub fn total_claimed(&self) -> (amt: u128)
        ensures
            amt == self@.claimed,
    {
        self.total_claimed
    }

    /// What could be claimed right now.
    pub fn balance_claimable(&self, decayed: u128) -> (amt: u128)
        ensures
            amt == self@.claimable(decayed as nat),
    {
        let vested: u128 = self.total_vested(decayed);
        vested.saturating_sub(self.total_claimed)
    }

    /// What has yet to vest: nothing for an empty principal, else the
    /// decayed principal.
    pub fn balance_still_vesting(&self, decayed: u128) -> (amt: u128)
        ensures
            amt == self@.still_vesting(decayed as nat),
    {
        if self.last_update_principal == 0 {
            return 0;
        }
        decayed
    }

    /// Settles the account at the time that `clock` shows: what is still
    /// vesting becomes the principal, and the curve starts anew from now.
    /// Returns the new principal.
    pub fn settle(&mut self, clock: &TestClock, decayed: u128) -> (p: u128)
        requires
            old(self).wf(),
        ensures
            final(self).wf(),
            final(self)@ == old(self)@.settle(clock@, decayed as nat),
            p == old(self)@.still_vesting(decayed as nat),
    {
        let p_now: u128 = self.balance_still_vesting(decayed);
        self.last_update_principal = p_now;
        self.last_update_timestamp = clock.now();
        p_now
    }

    /// Deposits `amount`. The account is settled, and the amount then vests
    /// together with what had not vested yet, along one curve that starts
    /// now. Sums stop at the largest amount rather than wrap.
    pub fn deposit(&mut self, clock: &TestClock, decayed: u128, amount: u128)
        requires
            old(self).wf(),
        ensures
            final(self).wf(),
            final(self)@ == old(self)@.deposit(clock@, decayed as nat, amount as nat),
    {
        let p_now: u128 = self.settle(clock, decayed);
        self.last_update_principal = p_now.saturating_add(amount);
        self.total_deposited = self.total_deposited.saturating_add(amount);
    }

    /// Claims everything that can be claimed and returns it. The account is
    /// settled; what is still vesting stays in it.
    pub fn claim(&mut self, clock: &TestClock, decayed: u128) -> (amt: u128)
        requires
            old(self).wf(),
        ensures
            final(self).wf(),
            final(self)@ == old(self)@.claim(clock@, decayed as nat),
            amt == old(self)@.claim_amount(decayed as nat),
            amt == old(self)@.claimable(decayed as nat),
            final(self)@.claimed == old(self)@.claimed + amt,
            final(self)@.claimable(final(self)@.principal) == 0,
    {
        let p_now: u128 = self.settle(clock, decayed);
        let amt: u128 = self.total_deposited.saturating_sub(self.total_claimed).saturating_sub(
            p_now,
        );
        self.total_claimed = self.total_claimed.saturating_add(amt);
        amt
    }

    /// Everything deposited and not yet claimed.
    pub fn unclaimed_total(&self) -> (amt: u128)
        ensures
            amt == self@.unclaimed_total(),
    {
        self.total_deposited.saturating_sub(self.total_claimed)
    }
}

} // verus!

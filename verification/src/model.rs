//! The account as a mathematical value.
//!
//! [`StreamModel`] holds the account's books as natural numbers, and its
//! functions say what each query returns and what each operation leaves
//! behind. Amounts are capped at the largest amount the account can hold;
//! a difference that would fall below zero is zero.

use vstd::prelude::*;

verus! {

/// The largest amount an account can hold.
pub open spec fn amount_limit() -> nat {
    u128::MAX as nat
}

/// The sum of two amounts, held at [`amount_limit`].
pub open spec fn capped_sum(a: nat, b: nat) -> nat {
    if a + b > amount_limit() {
        amount_limit()
    } else {
        a + b
    }
}

/// The difference of two amounts, or zero where `b` exceeds `a`.
pub open spec fn floored_diff(a: nat, b: nat) -> nat {
    if a >= b {
        (a - b) as nat
    } else {
        0
    }
}

/// Whether `bits` is the binary64 pattern of a positive, finite number:
/// the sign bit is clear, the exponent is not all ones, and the pattern is
/// not that of zero.
pub open spec fn is_rate(bits: u64) -> bool {
    0 < bits < 0x7FF0_0000_0000_0000u64
}

/// The books of one account.
pub struct StreamModel {
    /// The decay rate per second, as a binary64 bit pattern.
    pub rate_bits: u64,
    /// Everything ever deposited.
    pub deposited: nat,
    /// Everything ever claimed.
    pub claimed: nat,
    /// What was still vesting when the account was last settled.
    pub principal: nat,
    /// The time of that settlement.
    pub stamp: nat,
}

impl StreamModel {
    /// An account without deposits, settled at `now`.
    pub open spec fn fresh(rate_bits: u64, now: nat) -> StreamModel {
        StreamModel { rate_bits, deposited: 0, claimed: 0, principal: 0, stamp: now }
    }

    /// Every amount fits the account and the time fits a clock.
    pub open spec fn in_range(self) -> bool {
        &&& self.deposited <= amount_limit()
        &&& self.claimed <= amount_limit()
        &&& self.principal <= amount_limit()
        &&& self.stamp <= u64::MAX
    }

    /// No more has been claimed than was deposited.
    pub open spec fn claims_covered(self) -> bool {
        self.claimed <= self.deposited
    }

    /// What was claimed and what was vesting at the last settlement fit
    /// together into what was deposited.
    pub open spec fn is_balanced(self) -> bool {
        self.claimed + self.principal <= self.deposited
    }

    /// The time between the last settlement and `now`; zero where the clock
    /// shows an earlier time.
    pub open spec fn elapsed(self, now: nat) -> nat {
        floored_diff(now, self.stamp)
    }

    /// The decayed principal at `now` under `curve`, which maps a principal
    /// and the time that has passed to what is left of it, rounded down.
    pub open spec fn decayed_at(self, curve: spec_fn(nat, nat) -> nat, now: nat) -> nat {
        curve(self.principal, self.elapsed(now))
    }

    /// What is still vesting, where `decayed` is the principal as the decay
    /// curve leaves it after the elapsed time. An empty principal stays
    /// empty whatever the curve says.
    pub open spec fn still_vesting(self, decayed: nat) -> nat {
        if self.principal == 0 {
            0
        } else {
            decayed
        }
    }

    /// The books cover `decayed`: what was claimed and what is still vesting
    /// fit together into what was deposited. A balanced account covers
    /// whatever does not exceed its principal.
    pub open spec fn covers(self, decayed: nat) -> bool {
        self.claimed + self.still_vesting(decayed) <= self.deposited
    }

    /// Everything that has vested, claimed or not.
    pub open spec fn total_vested(self, decayed: nat) -> nat {
        floored_diff(self.deposited, self.still_vesting(decayed))
    }

    /// What can be claimed now: vested and not yet claimed.
    pub open spec fn claimable(self, decayed: nat) -> nat {
        floored_diff(self.total_vested(decayed), self.claimed)
    }

    /// Everything deposited and not yet claimed, vested or not.
    pub open spec fn unclaimed_total(self) -> nat {
        floored_diff(self.deposited, self.claimed)
    }

    /// The account settled at `now`: what is still vesting becomes the new
    /// principal. Nothing else changes.
    pub open spec fn settle(self, now: nat, decayed: nat) -> StreamModel {
        StreamModel { principal: self.still_vesting(decayed), stamp: now, ..self }
    }

    /// The account after a deposit of `amount` at `now`: settled, then the
    /// amount joins both the principal and the deposits.
    pub open spec fn deposit(self, now: nat, decayed: nat, amount: nat) -> StreamModel {
        StreamModel {
            principal: capped_sum(self.still_vesting(decayed), amount),
            deposited: capped_sum(self.deposited, amount),
            stamp: now,
            ..self
        }
    }

    /// What a claim pays out: the unclaimed total less what is still vesting.
    pub open spec fn claim_amount(self, decayed: nat) -> nat {
        floored_diff(self.unclaimed_total(), self.still_vesting(decayed))
    }

    /// The account after a claim at `now`: settled, then the payout joins
    /// the claims. The principal is only settled, never reduced.
    pub open spec fn claim(self, now: nat, decayed: nat) -> StreamModel {
        StreamModel {
            principal: self.still_vesting(decayed),
            claimed: capped_sum(self.claimed, self.claim_amount(decayed)),
            stamp: now,
            ..self
        }
    }

    /// The account after a change of rate at `now`: settled under the old
    /// rate, then carrying the new one.
    pub open spec fn with_rate(self, now: nat, decayed: nat, rate_bits: u64) -> StreamModel {
        StreamModel { rate_bits, ..self.settle(now, decayed) }
    }
}

} // verus!

//! What holds of an account across operations.
//!
//! Each law is stated over [`StreamModel`], the value that the contracts of
//! [`crate::token_stream::TokenStream`] speak of, and holds for every decay
//! curve: a curve enters only through the decayed principal that it yields.
//! Where a law needs the curve not to yield more than the books cover, or a
//! sum to stay under the cap, it says so.

use vstd::prelude::*;
use crate::model::{amount_limit, StreamModel};

verus! {

/// One operation on an account, with the time it happens at and the decayed
/// principal that the curve yields at that time.
pub enum Step {
    /// A settlement.
    Settle { now: nat, decayed: nat },
    /// A deposit of `amount`.
    Deposit { now: nat, decayed: nat, amount: nat },
    /// A claim.
    Claim { now: nat, decayed: nat },
    /// A change of rate.
    SetRate { now: nat, decayed: nat, rate_bits: u64 },
}

impl Step {
    /// The decayed principal that the step carries.
    pub open spec fn decayed(self) -> nat {
        match self {
            Step::Settle { decayed, .. } => decayed,
            Step::Deposit { decayed, .. } => decayed,
            Step::Claim { decayed, .. } => decayed,
            Step::SetRate { decayed, .. } => decayed,
        }
    }

    /// The account after the step.
    pub open spec fn apply(self, s: StreamModel) -> StreamModel {
        match self {
            Step::Settle { now, decayed } => s.settle(now, decayed),
            Step::Deposit { now, decayed, amount } => s.deposit(now, decayed, amount),
            Step::Claim { now, decayed } => s.claim(now, decayed),
            Step::SetRate { now, decayed, rate_bits } => s.with_rate(now, decayed, rate_bits),
        }
    }

    /// The step is sound for `s`: the curve has not yielded more than the
    /// books cover, and a deposit keeps the deposits under the cap.
    pub open spec fn sound_for(self, s: StreamModel) -> bool {
        &&& s.covers(self.decayed())
        &&& match self {
            Step::Deposit { amount, .. } => s.deposited + amount <= amount_limit(),
            _ => true,
        }
    }
}

/// The account after all of `steps`, in order.
pub open spec fn run(s: StreamModel, steps: Seq<Step>) -> StreamModel
    decreases steps.len(),
{
    if steps.len() == 0 {
        s
    } else {
        steps.last().apply(run(s, steps.drop_last()))
    }
}

/// Every one of `steps` is sound for the account it meets.
pub open spec fn all_sound(s: StreamModel, steps: Seq<Step>) -> bool
    decreases steps.len(),
{
    steps.len() == 0 || (all_sound(s, steps.drop_last()) && steps.last().sound_for(
        run(s, steps.drop_last()),
    ))
}

/// Conservation at one instant: what was deposited is what was claimed,
/// what is still vesting and what is claimable, with nothing left over,
/// exactly where the books cover what the curve yields. The unclaimed total
/// is then what is still vesting and what is claimable.
pub proof fn lemma_conservation(s: StreamModel, decayed: nat)
    ensures
        s.covers(decayed) <==> s.deposited == s.claimed + s.still_vesting(decayed) + s.claimable(
            decayed,
        ),
        s.covers(decayed) ==> s.unclaimed_total() == s.still_vesting(decayed) + s.claimable(
            decayed,
        ),
        s.is_balanced() && decayed <= s.principal ==> s.covers(decayed),
{
}

/// A sound step keeps a balanced account balanced.
pub proof fn lemma_step_keeps_balance(s: StreamModel, step: Step)
    requires
        s.is_balanced(),
        step.sound_for(s),
    ensures
        step.apply(s).is_balanced(),
{
}

/// A step keeps an account's claims covered, whatever the curve yields.
/// Neither the deposits nor the claims ever shrink, and both stay under the
/// cap.
pub proof fn lemma_step_keeps_invariant(s: StreamModel, step: Step)
    requires
        s.in_range(),
        s.claims_covered(),
    ensures
        step.apply(s).claims_covered(),
        step.apply(s).deposited >= s.deposited,
        step.apply(s).claimed >= s.claimed,
        step.apply(s).deposited <= amount_limit(),
        step.apply(s).claimed <= amount_limit(),
{
}

/// Conservation over time: start from a balanced account (a fresh one is),
/// take any sequence of sound deposits, claims, settlements and changes of
/// rate at any times. The account is balanced afterwards, and where its
/// books cover what the curve yields then, its deposits are again its
/// claims, what is still vesting and what is claimable.
pub proof fn lemma_run_conserves(s: StreamModel, steps: Seq<Step>, decayed: nat)
    requires
        s.is_balanced(),
        all_sound(s, steps),
        run(s, steps).covers(decayed),
    ensures
        run(s, steps).is_balanced(),
        run(s, steps).deposited == run(s, steps).claimed + run(s, steps).still_vesting(decayed)
            + run(s, steps).claimable(decayed),
{
    lemma_run_keeps_balance(s, steps);
    lemma_conservation(run(s, steps), decayed);
}

/// Any sequence of sound steps keeps a balanced account balanced.
pub proof fn lemma_run_keeps_balance(s: StreamModel, steps: Seq<Step>)
    requires
        s.is_balanced(),
        all_sound(s, steps),
    ensures
        run(s, steps).is_balanced(),
    decreases steps.len(),
{
    if steps.len() > 0 {
        lemma_run_keeps_balance(s, steps.drop_last());
        lemma_step_keeps_balance(run(s, steps.drop_last()), steps.last());
    }
}

/// A fresh account is in range, balanced, and has nothing to claim.
pub proof fn lemma_fresh_is_balanced(rate_bits: u64, now: nat, decayed: nat)
    requires
        now <= u64::MAX,
    ensures
        StreamModel::fresh(rate_bits, now).in_range(),
        StreamModel::fresh(rate_bits, now).is_balanced(),
        StreamModel::fresh(rate_bits, now).still_vesting(decayed) == 0,
        StreamModel::fresh(rate_bits, now).claimable(decayed) == 0,
{
}

/// Decay after one deposit: deposit `amount` into a fresh account at `t0`
/// and let `dt` pass with nothing else happening. What is still vesting is
/// then what `curve` leaves of the amount after `dt`, and what is claimable
/// is the amount less that. The curve is asked only not to exceed the amount
/// it started from.
pub proof fn lemma_decay_after_deposit(
    curve: spec_fn(nat, nat) -> nat,
    rate_bits: u64,
    t0: nat,
    amount: nat,
    dt: nat,
)
    requires
        amount <= amount_limit(),
        curve(amount, dt) <= amount,
    ensures
        ({
            let s = StreamModel::fresh(rate_bits, t0).deposit(t0, 0, amount);
            let decayed = s.decayed_at(curve, t0 + dt);
            &&& s.still_vesting(decayed) == curve(amount, dt)
            &&& s.claimable(decayed) == amount - curve(amount, dt)
            &&& s.total_vested(decayed) == amount - curve(amount, dt)
        }),
{
}

/// A claim pays exactly what was claimable just before it, and leaves
/// nothing claimable at that instant.
pub proof fn lemma_claim_exact(s: StreamModel, now: nat, decayed: nat)
    requires
        s.in_range(),
    ensures
        s.claim_amount(decayed) == s.claimable(decayed),
        s.claim(now, decayed).claimable(s.claim(now, decayed).principal) == 0,
        s.claim(now, decayed).still_vesting(s.claim(now, decayed).principal) == s.still_vesting(
            decayed,
        ),
{
}

/// Claiming in two goes pays as much as claiming once at the later time:
/// if the curve yields `mid` at the first claim and `end` at the second,
/// and would have yielded `end` from the start without the first claim, the
/// two payouts add up to the single one, and the accounts end up with the
/// same claims and the same principal.
pub proof fn lemma_split_claims(s: StreamModel, t1: nat, mid: nat, t2: nat, end: nat)
    requires
        s.in_range(),
        s.is_balanced(),
        end <= mid <= s.principal,
    ensures
        s.claim_amount(mid) + s.claim(t1, mid).claim_amount(end) == s.claim_amount(end),
        s.claim(t1, mid).claim(t2, end) == s.claim(t2, end),
{
}

/// Split time: deposit `amount` at `t0` into a fresh account, claim after
/// `a`, and claim again after `b` more. Where `curve` takes the amount as
/// far in two legs as in one of `a + b`, the two payouts add up to what a
/// single claim after `a + b` pays.
pub proof fn lemma_split_time(
    curve: spec_fn(nat, nat) -> nat,
    rate_bits: u64,
    t0: nat,
    amount: nat,
    a: nat,
    b: nat,
)
    requires
        amount <= amount_limit(),
        t0 <= u64::MAX,
        curve(amount, a) <= amount,
        curve(curve(amount, a), b) <= curve(amount, a),
        curve(curve(amount, a), b) == curve(amount, a + b),
    ensures
        ({
            let s = StreamModel::fresh(rate_bits, t0).deposit(t0, 0, amount);
            let first = s.claim(t0 + a, s.decayed_at(curve, t0 + a));
            let second = first.claim(t0 + a + b, first.decayed_at(curve, t0 + a + b));
            let single = s.claim(t0 + a + b, s.decayed_at(curve, t0 + a + b));
            &&& s.claim_amount(s.decayed_at(curve, t0 + a)) + first.claim_amount(
                first.decayed_at(curve, t0 + a + b),
            ) == s.claim_amount(s.decayed_at(curve, t0 + a + b))
            &&& second == single
            &&& single.claimed == amount - curve(amount, a + b)
        }),
{
    let s = StreamModel::fresh(rate_bits, t0).deposit(t0, 0, amount);
    lemma_split_claims(s, t0 + a, curve(amount, a), t0 + a + b, curve(amount, a + b));
}

/// A deposit leaves what is claimable as it was, and adds itself to what is
/// still vesting, as long as the sums stay under the cap.
pub proof fn lemma_deposit_keeps_claimable(s: StreamModel, now: nat, decayed: nat, amount: nat)
    requires
        s.deposited + amount <= amount_limit(),
        s.still_vesting(decayed) + amount <= amount_limit(),
    ensures
        ({
            let after = s.deposit(now, decayed, amount);
            &&& after.claimable(after.principal) == s.claimable(decayed)
            &&& after.still_vesting(after.principal) == s.still_vesting(decayed) + amount
            &&& after.claimed == s.claimed
        }),
{
}

/// Once the curve has decayed the principal to nothing, nothing is still
/// vesting, and a claim pays everything that was deposited and not yet
/// claimed: no dust stays behind.
pub proof fn lemma_dust_claim(s: StreamModel, now: nat)
    requires
        s.in_range(),
        s.claims_covered(),
    ensures
        s.still_vesting(0) == 0,
        s.claim_amount(0) == s.deposited - s.claimed,
        s.claim(now, 0).claimed == s.deposited,
        s.claim(now, 0).principal == 0,
        s.claim(now, 0).unclaimed_total() == 0,
        forall|later: nat| s.claim(now, 0).still_vesting(later) == 0,
{
}

/// What is still vesting never grows while the curve falls: a smaller
/// decayed principal means no more still vesting, and no less vested and
/// claimable.
pub proof fn lemma_still_vesting_falls(s: StreamModel, earlier: nat, later: nat)
    requires
        later <= earlier,
    ensures
        s.still_vesting(later) <= s.still_vesting(earlier),
        s.total_vested(later) >= s.total_vested(earlier),
        s.claimable(later) >= s.claimable(earlier),
{
}

/// Settling twice at one time changes nothing the second time: the account
/// and everything that can be asked of it stay as the first settlement left
/// them. No time has passed in between, and `curve` is asked to leave the
/// settled principal as it is where no time has passed.
pub proof fn lemma_settle_idempotent(
    s: StreamModel,
    curve: spec_fn(nat, nat) -> nat,
    now: nat,
    decayed: nat,
)
    requires
        curve(s.settle(now, decayed).principal, 0) == s.settle(now, decayed).principal,
    ensures
        ({
            let once = s.settle(now, decayed);
            let twice = once.settle(now, once.decayed_at(curve, now));
            &&& once.elapsed(now) == 0
            &&& once.still_vesting(once.decayed_at(curve, now)) == once.principal
            &&& twice == once
        }),
{
}

} // verus!

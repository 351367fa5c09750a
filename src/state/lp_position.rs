//! A liquidity provider's stake in the pool and the simple interest it earns.
use vstd::prelude::*;

use crate::address::Address;

verus! {

/// Seconds in a year times basis points in one: the divisor of yearly interest.
pub const YEAR_BPS_DIVISOR: u128 = 315_360_000_000;

/// Seconds from `last_update` to `now`, or zero when `now` is not later.
pub open spec fn elapsed_since(last_update: i64, now: i64) -> int {
    if now > last_update {
        now - last_update
    } else {
        0
    }
}

/// Simple interest on `principal` at `rate_bps` a year over `elapsed` seconds.
pub open spec fn simple_interest(principal: u64, rate_bps: u16, elapsed: int) -> int {
    principal * rate_bps * elapsed / 315_360_000_000int
}

pub open spec fn saturating_u64(v: int) -> u64 {
    if v > u64::MAX {
        u64::MAX
    } else {
        v as u64
    }
}

/// One provider's supplied principal and the interest earned on it so far.
#[derive(Clone, Copy, Debug)]
pub struct LpPosition {
    /// The provider; all zero while the record is unclaimed.
    pub lp: Address,
    pub supplied_amount: u64,
    pub interest_earned: u64,
    /// Unix time of the last accrual.
    pub last_update: i64,
}

impl LpPosition {
    /// The record after accruing at `rate_bps` up to `now`.
    pub open spec fn accrued(self, rate_bps: u16, now: i64) -> LpPosition {
        LpPosition {
            interest_earned: saturating_u64(
                self.interest_earned + simple_interest(
                    self.supplied_amount,
                    rate_bps,
                    elapsed_since(self.last_update, now),
                ),
            ),
            last_update: now,
            ..self
        }
    }

    /// The record as a supply by `signer` at `now` finds it, before the
    /// principal grows: an unclaimed record is claimed and starts its clock,
    /// a claimed one first accrues what it earned.
    pub open spec fn before_supply(self, signer: Address, rate_bps: u16, now: i64) -> LpPosition {
        if self.lp.is_zero_spec() {
            LpPosition { lp: signer, last_update: now, ..self }
        } else {
            self.accrued(rate_bps, now)
        }
    }

    /// Principal plus interest, saturating at `u64::MAX`.
    pub open spec fn claimable_spec(self) -> u64 {
        saturating_u64(self.supplied_amount + self.interest_earned)
    }

    /// An unclaimed record: no provider, nothing supplied.
    pub fn empty() -> (r: LpPosition)
        ensures
            r.lp.is_zero_spec(),
            r.supplied_amount == 0,
            r.interest_earned == 0,
            r.last_update == 0,
    {
        LpPosition { lp: Address::zero(), supplied_amount: 0, interest_earned: 0, last_update: 0 }
    }

    /// Adds the simple interest earned since the last accrual and moves the
    /// accrual time to `current_time`. Time running backwards earns nothing.
    pub fn accrue_interest(&mut self, interest_rate_bps: u16, current_time: i64)
        ensures
            *final(self) == old(self).accrued(interest_rate_bps, current_time),
            final(self).claimable_spec() >= old(self).claimable_spec(),
    {
        let elapsed: u128 = if current_time > self.last_update {
            (current_time as i128 - self.last_update as i128) as u128
        } else {
            0
        };
        let supplied = self.supplied_amount as u128;
        let rate = interest_rate_bps as u128;
        assert(supplied * rate <= u128::MAX) by (nonlinear_arith)
            requires
                supplied <= u64::MAX,
                rate <= u16::MAX,
        ;
        let principal_rate: u128 = supplied * rate;
        let saturated = elapsed != 0 && principal_rate > u128::MAX / elapsed;
        let product: u128 = if saturated {
            u128::MAX
        } else {
            assert(principal_rate * elapsed <= u128::MAX) by (nonlinear_arith)
                requires
                    elapsed == 0 || principal_rate <= u128::MAX / elapsed,
            ;
            principal_rate * elapsed
        };
        let interest: u128 = product / YEAR_BPS_DIVISOR;
        let ghost exact = simple_interest(
            self.supplied_amount,
            interest_rate_bps,
            elapsed_since(self.last_update, current_time),
        );
        proof {
            let s = self.supplied_amount as int;
            let r = interest_rate_bps as int;
            let e = elapsed as int;
            assert(s * r * e == principal_rate * e) by (nonlinear_arith)
                requires
                    principal_rate == s * r,
            ;
            assert(s * r * e >= 0) by (nonlinear_arith)
                requires
                    s >= 0,
                    r >= 0,
                    e >= 0,
            ;
            if saturated {
                assert(principal_rate * elapsed > u128::MAX) by (nonlinear_arith)
                    requires
                        elapsed > 0,
                        principal_rate > u128::MAX / elapsed,
                ;
                assert(exact >= interest) by (nonlinear_arith)
                    requires
                        s * r * e >= product,
                        exact == s * r * e / 315_360_000_000int,
                        interest == product as int / 315_360_000_000int,
                ;
            } else {
                assert(product == s * r * e);
                assert(interest == exact);
            }
            assert(u128::MAX as int / 315_360_000_000int > u64::MAX);
        }
        let earned = self.interest_earned;
        let new_interest: u64 = if interest > (u64::MAX - earned) as u128 {
            u64::MAX
        } else {
            earned + interest as u64
        };
        self.interest_earned = new_interest;
        self.last_update = current_time;
    }

    /// Principal plus accrued interest, saturating at `u64::MAX`.
    pub fn claimable(&self) -> (r: u64)
        ensures
            r == self.claimable_spec(),
    {
        self.supplied_amount.saturating_add(self.interest_earned)
    }
}

/// Accruing a second time at the same moment changes nothing.
pub proof fn lemma_accrue_idempotent(position: LpPosition, interest_rate_bps: u16, now: i64)
    ensures
        position.accrued(interest_rate_bps, now).accrued(interest_rate_bps, now)
            == position.accrued(interest_rate_bps, now),
{
    let once = position.accrued(interest_rate_bps, now);
    assert(elapsed_since(once.last_update, now) == 0);
    assert(simple_interest(once.supplied_amount, interest_rate_bps, 0) == 0) by (nonlinear_arith);
}

} // verus!

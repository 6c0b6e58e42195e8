use vstd::arithmetic::div_mod::{lemma_div_by_multiple, lemma_div_is_ordered, lemma_div_pos_is_pos};
use vstd::prelude::*;

use crate::error::VestingError;
use crate::state::pubkey::Pubkey;

verus! {

/// Division that truncates toward zero, as integer division does on machine integers.
pub open spec fn trunc_div(a: int, b: int) -> int {
    if a >= 0 {
        a / b
    } else {
        -((-a) / b)
    }
}

/// The amount vested at `now` under a schedule: nothing accrues before `start`,
/// the whole entitlement is out from `end` on, and in between it grows linearly,
/// truncated toward zero. A window of zero length vests nothing before `end`.
pub open spec fn vested_at(start: int, end: int, total: int, now: int) -> int {
    if now >= end {
        total
    } else {
        let elapsed = if now > start { now - start } else { 0 };
        let window = if end > start { end - start } else { 0 };
        if window == 0 {
            0
        } else {
            trunc_div(total * elapsed, window)
        }
    }
}

/// What a claim at a given vested amount may still pay out.
pub open spec fn claimable_of(vested: int, withdrawn: int) -> int {
    if vested > withdrawn {
        vested - withdrawn
    } else {
        0
    }
}

/// Before `end`, the vested amount lies between zero and the entitlement.
pub proof fn lemma_vested_bounded(start: int, end: int, total: int, now: int)
    requires
        total >= 0,
    ensures
        0 <= vested_at(start, end, total, now) <= total,
{
    if now < end && end > start {
        let elapsed = if now > start { now - start } else { 0 };
        let window = end - start;
        assert(total * elapsed <= total * window) by (nonlinear_arith)
            requires elapsed <= window, total >= 0;
        assert(total * elapsed >= 0) by (nonlinear_arith)
            requires elapsed >= 0, total >= 0;
        lemma_div_is_ordered(total * elapsed, total * window, window);
        lemma_div_by_multiple(total, window);
        assert(total * window == window * total) by (nonlinear_arith);
        lemma_div_pos_is_pos(total * elapsed, window);
    }
}

/// A negative entitlement never vests above zero.
pub proof fn lemma_vested_nonpositive(start: int, end: int, total: int, now: int)
    requires
        total < 0,
    ensures
        vested_at(start, end, total, now) <= 0,
{
    if now < end && end > start {
        let elapsed = if now > start { now - start } else { 0 };
        assert((-total) * elapsed >= 0) by (nonlinear_arith)
            requires elapsed >= 0, total < 0;
        assert(-(total * elapsed) == (-total) * elapsed) by (nonlinear_arith);
        lemma_div_pos_is_pos((-total) * elapsed, end - start);
    }
}

/// The vested amount never shrinks as time goes on.
pub proof fn lemma_vested_monotonic(start: int, end: int, total: int, t1: int, t2: int)
    requires
        total >= 0,
        t1 <= t2,
    ensures
        vested_at(start, end, total, t1) <= vested_at(start, end, total, t2),
{
    lemma_vested_bounded(start, end, total, t1);
    if t2 < end && end > start {
        let e1 = if t1 > start { t1 - start } else { 0 };
        let e2 = if t2 > start { t2 - start } else { 0 };
        let window = end - start;
        assert(total * e1 <= total * e2) by (nonlinear_arith)
            requires e1 <= e2, total >= 0;
        assert(total * e1 >= 0) by (nonlinear_arith)
            requires e1 >= 0, total >= 0;
        lemma_div_is_ordered(total * e1, total * e2, window);
    }
}

/// One beneficiary's vesting terms under a pool, and what has been paid out.
#[derive(Debug, Clone, Copy, PartialEq, Eq, Structural)]
pub struct Employee {
    pub start_time: i64,
    pub end_time: i64,
    pub cliff_time: i64,
    pub total_amount: i64,
    pub total_withdrawn: i64,
    pub beneficiary: Pubkey,
    /// The pool this schedule draws on, by its position in the ledger.
    pub vest: usize,
}

impl Employee {
    pub open spec fn vested(&self, now: int) -> int {
        vested_at(self.start_time as int, self.end_time as int, self.total_amount as int, now)
    }

    pub open spec fn claimable(&self, now: int) -> int {
        claimable_of(self.vested(now), self.total_withdrawn as int)
    }

    /// The result of a claim at `now` on this schedule: refused before the cliff,
    /// refused when nothing is left to pay, and otherwise the amount to pay.
    pub open spec fn claim_outcome(&self, now: int) -> Result<int, VestingError> {
        if now < self.cliff_time {
            Err(VestingError::ClaimNotAvailableYet)
        } else if self.claimable(now) == 0 {
            Err(VestingError::NothingToClaim)
        } else {
            Ok(self.claimable(now))
        }
    }

    /// The amount vested at `now`.
    pub fn vested_amount(&self, now: i64) -> (r: i64)
        ensures
            r == self.vested(now as int),
    {
        if now >= self.end_time {
            return self.total_amount;
        }
        let start = self.start_time as i128;
        let end = self.end_time as i128;
        let n = now as i128;
        let elapsed: i128 = if n > start { n - start } else { 0 };
        let window: i128 = if end > start { end - start } else { 0 };
        if window == 0 {
            return 0;
        }
        let total = self.total_amount as i128;
        let magnitude: i128 = if total >= 0 { total } else { -total };
        assert(elapsed < window);
        assert(magnitude * elapsed <= 0x8000_0000_0000_0000 * 0xffff_ffff_ffff_ffff)
            by (nonlinear_arith)
            requires
                0 <= magnitude <= 0x8000_0000_0000_0000,
                0 <= elapsed <= 0xffff_ffff_ffff_ffff,
        ;
        let q: i128 = (magnitude * elapsed) / window;
        proof {
            lemma_vested_bounded(start as int, end as int, magnitude as int, n as int);
            assert(-(total * elapsed) == (-total) * elapsed) by (nonlinear_arith);
        }
        if total >= 0 {
            q as i64
        } else {
            (-q) as i64
        }
    }

    /// This schedule once a claim at `now` has paid out what was claimable.
    pub open spec fn after_claim(&self, now: int) -> Employee {
        Employee { total_withdrawn: self.vested(now) as i64, ..*self }
    }

    /// What every schedule keeps: its withdrawals never go below zero.
    pub open spec fn wf(&self) -> bool {
        self.total_withdrawn >= 0
    }

    /// The amount a claim at `now` would pay: what has vested beyond what was
    /// already withdrawn, and never less than zero.
    pub fn claimable_amount(&self, now: i64) -> (r: i64)
        requires
            self.wf(),
        ensures
            r == self.claimable(now as int),
            i64::MIN <= self.vested(now as int) <= i64::MAX,
    {
        let vested = self.vested_amount(now) as i128;
        let withdrawn = self.total_withdrawn as i128;
        if vested > withdrawn {
            (vested - withdrawn) as i64
        } else {
            0
        }
    }
}

} // verus!

use vstd::prelude::*;

use crate::error::VestingError;
use crate::state::employee::Employee;
use crate::state::ledger::{is_schedule_of, Ledger};
use crate::state::pubkey::Pubkey;
use crate::state::vest::Vest;

verus! {

/// What a claim is made with: the beneficiary who signs, the pool drawn on, the
/// schedule claimed (by its position in the ledger), the asset and treasury the
/// caller presents for the pool, and what that treasury holds.
#[derive(Debug, Clone, Copy, PartialEq, Eq, Structural)]
pub struct ClaimTokens {
    pub beneficiary: Pubkey,
    pub vest: usize,
    pub employee: usize,
    pub mint: Pubkey,
    pub treasury: Pubkey,
    pub treasury_balance: u64,
}

/// Whether the asset and treasury presented are those of pool `vest`.
pub open spec fn presents_pool(vests: Seq<Vest>, accounts: ClaimTokens) -> bool {
    vests[accounts.vest as int].mint == accounts.mint && vests[accounts.vest as int].treasury
        == accounts.treasury
}

/// The result of a claim at `now` on schedule `e` against a treasury holding
/// `balance`: the schedule's own outcome, unless the treasury cannot pay it.
pub open spec fn claim_result(e: Employee, now: int, balance: int) -> Result<int, VestingError> {
    match e.claim_outcome(now) {
        Err(x) => Err(x),
        Ok(a) => if a > balance {
            Err(VestingError::InsufficientFunds)
        } else {
            Ok(a)
        },
    }
}

/// What a claim leaves behind: the pool must exist and be presented with its own
/// asset and treasury, and the schedule named must exist and belong to the
/// signer under that pool; then the schedule's outcome decides, and on success
/// the schedule has withdrawn all that is vested. A refused claim changes nothing.
pub open spec fn claimed(
    pre: Ledger,
    post: Ledger,
    accounts: ClaimTokens,
    now: int,
    r: Result<u64, VestingError>,
) -> bool {
    let v = accounts.vest as int;
    let k = accounts.employee as int;
    &&& post.vests@ == pre.vests@
    &&& r is Err ==> post.employees@ == pre.employees@
    &&& v >= pre.vests@.len() ==> r == Err::<u64, VestingError>(VestingError::UnknownEntity)
    &&& v < pre.vests@.len() && !presents_pool(pre.vests@, accounts) ==> r == Err::<
        u64,
        VestingError,
    >(VestingError::Unauthorized)
    &&& v < pre.vests@.len() && presents_pool(pre.vests@, accounts) && k >= pre.employees@.len()
        ==> r == Err::<u64, VestingError>(VestingError::UnknownEntity)
    &&& v < pre.vests@.len() && presents_pool(pre.vests@, accounts) && k < pre.employees@.len()
        && !is_schedule_of(pre.employees@, k, accounts.beneficiary, v) ==> r == Err::<
        u64,
        VestingError,
    >(VestingError::Unauthorized)
    &&& v < pre.vests@.len() && presents_pool(pre.vests@, accounts) && is_schedule_of(
        pre.employees@,
        k,
        accounts.beneficiary,
        v,
    ) ==> match claim_result(pre.employees@[k], now, accounts.treasury_balance as int) {
        Ok(a) => r == Ok::<u64, VestingError>(a as u64) && post.employees@ == pre.employees@.update(
            k,
            pre.employees@[k].after_claim(now),
        ),
        Err(e) => r == Err::<u64, VestingError>(e),
    }
}

impl ClaimTokens {
    /// Records as withdrawn what has vested by `now` beyond the earlier
    /// withdrawals, and returns that amount for the treasury to transfer to the
    /// beneficiary.
    pub fn claim_tokens(ledger: &mut Ledger, accounts: ClaimTokens, now: i64) -> (r: Result<
        u64,
        VestingError,
    >)
        requires
            old(ledger).wf(),
        ensures
            final(ledger).wf(),
            claimed(*old(ledger), *final(ledger), accounts, now as int, r),
    {
        if accounts.vest >= ledger.vests.len() {
            return Err(VestingError::UnknownEntity);
        }
        if ledger.vests[accounts.vest].mint != accounts.mint
            || ledger.vests[accounts.vest].treasury != accounts.treasury {
            return Err(VestingError::Unauthorized);
        }
        let k = accounts.employee;
        if k >= ledger.employees.len() {
            return Err(VestingError::UnknownEntity);
        }
        if ledger.employees[k].beneficiary != accounts.beneficiary
            || ledger.employees[k].vest != accounts.vest {
            return Err(VestingError::Unauthorized);
        }
        let mut employee = ledger.employees[k];
        if now < employee.cliff_time {
            return Err(VestingError::ClaimNotAvailableYet);
        }
        let claimable = employee.claimable_amount(now);
        if claimable == 0 {
            return Err(VestingError::NothingToClaim);
        }
        if claimable as u64 > accounts.treasury_balance {
            return Err(VestingError::InsufficientFunds);
        }
        employee.total_withdrawn = employee.total_withdrawn + claimable;
        ledger.employees[k] = employee;
        proof {
            assert(employee == old(ledger).employees@[k as int].after_claim(now as int));
        }
        Ok(claimable as u64)
    }
}

} // verus!

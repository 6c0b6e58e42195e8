//! Properties that hold across the operations of the engine.
use vstd::prelude::*;

use crate::error::VestingError;
use crate::instructions::claim_tokens::{claimed, presents_pool, ClaimTokens};
use crate::instructions::create_employee::{employee_created, CreateEmployee, CreateEmployeeArgs};
use crate::instructions::create_vest::{vest_created, CreateVest};
use crate::state::employee::{lemma_vested_bounded, lemma_vested_monotonic, lemma_vested_nonpositive, Employee};
use crate::state::ledger::{is_schedule_of, schedule_exists, Ledger};

verus! {

/// A schedule with something left to claim has vested a positive amount no
/// larger than its entitlement.
proof fn lemma_paying_schedule(e: Employee, now: int)
    requires
        e.wf(),
    ensures
        e.vested(now) > e.total_withdrawn ==> 0 < e.vested(now) <= e.total_amount,
{
    if e.total_amount >= 0 {
        lemma_vested_bounded(e.start_time as int, e.end_time as int, e.total_amount as int, now);
    } else {
        lemma_vested_nonpositive(e.start_time as int, e.end_time as int, e.total_amount as int, now);
    }
}

/// The amount vested under a schedule with a non-negative entitlement never
/// decreases as time moves forward.
pub proof fn vested_is_monotonic(e: Employee, t1: int, t2: int)
    requires
        e.total_amount >= 0,
        t1 <= t2,
    ensures
        e.vested(t1) <= e.vested(t2),
{
    lemma_vested_monotonic(e.start_time as int, e.end_time as int, e.total_amount as int, t1, t2);
}

/// Nothing has vested at the start of a non-empty window.
pub proof fn vested_at_start_is_zero(e: Employee)
    requires
        e.start_time < e.end_time,
    ensures
        e.vested(e.start_time as int) == 0,
{
}

/// From the end of the window on, the whole entitlement has vested.
pub proof fn vested_after_end_is_total(e: Employee, t: int)
    requires
        t >= e.end_time,
    ensures
        e.vested(t) == e.total_amount,
{
}

/// After a successful claim the schedule has withdrawn exactly what has vested,
/// which lies between zero and the entitlement.
pub proof fn claim_keeps_withdrawals_within_vested(
    pre: Ledger,
    post: Ledger,
    accounts: ClaimTokens,
    now: int,
    paid: u64,
    k: int,
)
    requires
        pre.wf(),
        claimed(pre, post, accounts, now, Ok(paid)),
        k == accounts.employee,
        is_schedule_of(pre.employees@, k, accounts.beneficiary, accounts.vest as int),
    ensures
        0 <= post.employees@[k].total_withdrawn,
        post.employees@[k].total_withdrawn == post.employees@[k].vested(now),
        post.employees@[k].vested(now) <= post.employees@[k].total_amount,
{
    lemma_paying_schedule(pre.employees@[k], now);
}

/// A successful claim pays a positive amount and raises the schedule's
/// withdrawals by exactly that amount, up to all that has vested.
pub proof fn claim_strictly_increases_withdrawals(
    pre: Ledger,
    post: Ledger,
    accounts: ClaimTokens,
    now: int,
    paid: u64,
    k: int,
)
    requires
        pre.wf(),
        claimed(pre, post, accounts, now, Ok(paid)),
        k == accounts.employee,
        is_schedule_of(pre.employees@, k, accounts.beneficiary, accounts.vest as int),
    ensures
        paid > 0,
        post.employees@[k].total_withdrawn == pre.employees@[k].total_withdrawn + paid,
        post.employees@[k].total_withdrawn == post.employees@[k].vested(now),
{
    lemma_paying_schedule(pre.employees@[k], now);
}

/// Once a schedule has withdrawn all that has vested, a claim fails with
/// `NothingToClaim`; in particular a second claim at the same time as a
/// successful one does.
pub proof fn claim_when_exhausted_fails(
    pre: Ledger,
    post: Ledger,
    accounts: ClaimTokens,
    now: int,
    r: Result<u64, VestingError>,
    k: int,
)
    requires
        pre.wf(),
        claimed(pre, post, accounts, now, r),
        accounts.vest < pre.vests@.len(),
        presents_pool(pre.vests@, accounts),
        k == accounts.employee,
        is_schedule_of(pre.employees@, k, accounts.beneficiary, accounts.vest as int),
        now >= pre.employees@[k].cliff_time,
        pre.employees@[k].vested(now) <= pre.employees@[k].total_withdrawn,
    ensures
        r == Err::<u64, VestingError>(VestingError::NothingToClaim),
{
}

/// A claim at the start of a non-empty window, once the cliff has passed, finds
/// nothing vested and fails with `NothingToClaim`.
pub proof fn claim_at_start_fails(
    pre: Ledger,
    post: Ledger,
    accounts: ClaimTokens,
    r: Result<u64, VestingError>,
    k: int,
)
    requires
        pre.wf(),
        accounts.vest < pre.vests@.len(),
        presents_pool(pre.vests@, accounts),
        k == accounts.employee,
        is_schedule_of(pre.employees@, k, accounts.beneficiary, accounts.vest as int),
        pre.employees@[k].cliff_time <= pre.employees@[k].start_time < pre.employees@[k].end_time,
        claimed(pre, post, accounts, pre.employees@[k].start_time as int, r),
    ensures
        r == Err::<u64, VestingError>(VestingError::NothingToClaim),
        post.employees@ == pre.employees@,
{
    assert(pre.employees@[k].wf());
}

/// A claim on a schedule whose beneficiary is not the signer fails with
/// `Unauthorized` and changes nothing.
pub proof fn claim_by_other_is_unauthorized(
    pre: Ledger,
    post: Ledger,
    accounts: ClaimTokens,
    now: int,
    r: Result<u64, VestingError>,
)
    requires
        pre.wf(),
        claimed(pre, post, accounts, now, r),
        accounts.vest < pre.vests@.len(),
        presents_pool(pre.vests@, accounts),
        accounts.employee < pre.employees@.len(),
        pre.employees@[accounts.employee as int].beneficiary != accounts.beneficiary,
    ensures
        r == Err::<u64, VestingError>(VestingError::Unauthorized),
        post.employees@ == pre.employees@,
        post.vests@ == pre.vests@,
{
}

/// A claim before the schedule's cliff fails with `ClaimNotAvailableYet`,
/// whatever the entitlement and the withdrawals so far.
pub proof fn claim_before_cliff_fails(
    pre: Ledger,
    post: Ledger,
    accounts: ClaimTokens,
    now: int,
    r: Result<u64, VestingError>,
    k: int,
)
    requires
        pre.wf(),
        claimed(pre, post, accounts, now, r),
        accounts.vest < pre.vests@.len(),
        presents_pool(pre.vests@, accounts),
        k == accounts.employee,
        is_schedule_of(pre.employees@, k, accounts.beneficiary, accounts.vest as int),
        now < pre.employees@[k].cliff_time,
    ensures
        r == Err::<u64, VestingError>(VestingError::ClaimNotAvailableYet),
{
}

/// Attaching a second schedule for the same beneficiary and pool fails with
/// `DuplicateEntity`, whatever its terms.
pub proof fn attach_twice_is_duplicate(
    l0: Ledger,
    l1: Ledger,
    l2: Ledger,
    accounts: CreateEmployee,
    first: CreateEmployeeArgs,
    second: CreateEmployeeArgs,
    position: usize,
    r: Result<usize, VestingError>,
)
    requires
        l0.wf(),
        employee_created(l0, l1, accounts, first, Ok(position)),
        employee_created(l1, l2, accounts, second, r),
    ensures
        r == Err::<usize, VestingError>(VestingError::DuplicateEntity),
{
    assert(is_schedule_of(l1.employees@, l0.employees@.len() as int, accounts.beneficiary, accounts.vest as int));
}

/// A pool holds schedules for many beneficiaries: once one is attached, the
/// owner attaches another for a different beneficiary at the next position,
/// and the first schedule stays as it was.
pub proof fn attach_second_beneficiary(
    l0: Ledger,
    l1: Ledger,
    l2: Ledger,
    first: CreateEmployee,
    second: CreateEmployee,
    first_args: CreateEmployeeArgs,
    second_args: CreateEmployeeArgs,
    position: usize,
    r: Result<usize, VestingError>,
)
    requires
        l0.wf(),
        employee_created(l0, l1, first, first_args, Ok(position)),
        second.vest == first.vest,
        second.owner == first.owner,
        second.beneficiary != first.beneficiary,
        !schedule_exists(l0.employees@, second.beneficiary, second.vest as int),
        employee_created(l1, l2, second, second_args, r),
    ensures
        r == Ok::<usize, VestingError>(l1.employees@.len() as usize),
        l2.employees@[position as int] == l1.employees@[position as int],
{
    assert forall|k: int| !#[trigger] is_schedule_of(l1.employees@, k, second.beneficiary, second.vest as int) by {
        if 0 <= k < l0.employees@.len() {
            assert(!is_schedule_of(l0.employees@, k, second.beneficiary, second.vest as int));
        }
    }}

/// Creating a pool under a name that any pool already has fails with
/// `DuplicateEntity`, whoever the owners are.
pub proof fn create_pool_name_is_global(
    l0: Ledger,
    l1: Ledger,
    l2: Ledger,
    first: CreateVest,
    second: CreateVest,
    name: String,
    again: String,
    position: usize,
    r: Result<usize, VestingError>,
)
    requires
        vest_created(l0, l1, first, name, Ok(position)),
        again@ == name@,
        vest_created(l1, l2, second, again, r),
    ensures
        r == Err::<usize, VestingError>(VestingError::DuplicateEntity),
{
    assert(l1.vests@[l0.vests@.len() as int].company_name@ == again@);
}

} // verus!

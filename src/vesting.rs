//! The program's three entry points.
use vstd::prelude::*;

use crate::error::VestingError;
use crate::instructions::claim_tokens::{claimed, ClaimTokens};
use crate::instructions::create_employee::{employee_created, CreateEmployee, CreateEmployeeArgs};
use crate::instructions::create_vest::{vest_created, CreateVest};
use crate::state::ledger::Ledger;

verus! {

/// Creates a pool; see [`CreateVest::create_vest`].
pub fn create_vest(ledger: &mut Ledger, accounts: CreateVest, company_name: String) -> (r: Result<
    usize,
    VestingError,
>)
    requires
        old(ledger).wf(),
    ensures
        final(ledger).wf(),
        vest_created(*old(ledger), *final(ledger), accounts, company_name, r),
{
    CreateVest::create_vest(ledger, accounts, company_name)
}

/// Attaches a schedule to a pool; see [`CreateEmployee::create_employee`].
pub fn create_employee(ledger: &mut Ledger, accounts: CreateEmployee, args: CreateEmployeeArgs) -> (r:
    Result<usize, VestingError>)
    requires
        old(ledger).wf(),
    ensures
        final(ledger).wf(),
        employee_created(*old(ledger), *final(ledger), accounts, args, r),
{
    CreateEmployee::create_employee(ledger, accounts, args)
}

/// Claims what has vested; see [`ClaimTokens::claim_tokens`].
pub fn claim_tokens(ledger: &mut Ledger, accounts: ClaimTokens, now: i64) -> (r: Result<
    u64,
    VestingError,
>)
    requires
        old(ledger).wf(),
    ensures
        final(ledger).wf(),
        claimed(*old(ledger), *final(ledger), accounts, now as int, r),
{
    ClaimTokens::claim_tokens(ledger, accounts, now)
}

} // verus!

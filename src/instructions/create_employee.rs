use vstd::prelude::*;

use crate::error::VestingError;
use crate::state::employee::Employee;
use crate::state::ledger::{schedule_exists, Ledger};
use crate::state::pubkey::Pubkey;

verus! {

/// The terms of a new schedule.
#[derive(Debug, Clone, Copy, PartialEq, Eq, Structural)]
pub struct CreateEmployeeArgs {
    pub start_time: i64,
    pub end_time: i64,
    pub cliff_time: i64,
    pub total_amount: i64,
}

/// Who attaches a schedule, for whom, and under which pool.
#[derive(Debug, Clone, Copy, PartialEq, Eq, Structural)]
pub struct CreateEmployee {
    pub owner: Pubkey,
    pub beneficiary: Pubkey,
    pub vest: usize,
}

/// The schedule that attaching `args` for `accounts` creates: nothing withdrawn yet.
pub open spec fn new_schedule(accounts: CreateEmployee, args: CreateEmployeeArgs) -> Employee {
    Employee {
        start_time: args.start_time,
        end_time: args.end_time,
        cliff_time: args.cliff_time,
        total_amount: args.total_amount,
        total_withdrawn: 0,
        beneficiary: accounts.beneficiary,
        vest: accounts.vest,
    }
}

/// What attaching a schedule leaves behind: the pool must exist, the caller must
/// own it, and the beneficiary must not yet hold a schedule under it; otherwise
/// the new schedule stands at the end and its position is returned. A refused
/// attachment changes nothing.
pub open spec fn employee_created(
    pre: Ledger,
    post: Ledger,
    accounts: CreateEmployee,
    args: CreateEmployeeArgs,
    r: Result<usize, VestingError>,
) -> bool {
    let v = accounts.vest as int;
    &&& post.vests@ == pre.vests@
    &&& r is Err ==> post.employees@ == pre.employees@
    &&& v >= pre.vests@.len() ==> r == Err::<usize, VestingError>(VestingError::UnknownEntity)
    &&& v < pre.vests@.len() && pre.vests@[v].owner != accounts.owner ==> r == Err::<
        usize,
        VestingError,
    >(VestingError::Unauthorized)
    &&& v < pre.vests@.len() && pre.vests@[v].owner == accounts.owner ==> (schedule_exists(
        pre.employees@,
        accounts.beneficiary,
        v,
    ) <==> r == Err::<usize, VestingError>(VestingError::DuplicateEntity))
    &&& v < pre.vests@.len() && pre.vests@[v].owner == accounts.owner && !schedule_exists(
        pre.employees@,
        accounts.beneficiary,
        v,
    ) ==> r == Ok::<usize, VestingError>(pre.employees@.len() as usize)
    &&& r is Ok ==> r == Ok::<usize, VestingError>(pre.employees@.len() as usize)
        && post.employees@ == pre.employees@.push(new_schedule(accounts, args))
}

impl CreateEmployee {
    /// Attaches a schedule for the beneficiary to the pool and returns its
    /// position. Only the pool's owner may do so, once per beneficiary and pool.
    pub fn create_employee(ledger: &mut Ledger, accounts: CreateEmployee, args: CreateEmployeeArgs) -> (r:
        Result<usize, VestingError>)
        requires
            old(ledger).wf(),
        ensures
            final(ledger).wf(),
            employee_created(*old(ledger), *final(ledger), accounts, args, r),
    {
        if accounts.vest >= ledger.vests.len() {
            return Err(VestingError::UnknownEntity);
        }
        if ledger.vests[accounts.vest].owner != accounts.owner {
            return Err(VestingError::Unauthorized);
        }
        if ledger.find_employee(accounts.beneficiary, accounts.vest).is_some() {
            return Err(VestingError::DuplicateEntity);
        }
        let position = ledger.employees.len();
        let employee = Employee {
            start_time: args.start_time,
            end_time: args.end_time,
            cliff_time: args.cliff_time,
            total_amount: args.total_amount,
            total_withdrawn: 0,
            beneficiary: accounts.beneficiary,
            vest: accounts.vest,
        };
        ledger.employees.push(employee);
        proof {
            assert forall|k: int, l: int| 0 <= k < l < ledger.employees@.len() implies !(
            #[trigger] ledger.employees@[k].beneficiary == #[trigger] ledger.employees@[l].beneficiary
                && ledger.employees@[k].vest == ledger.employees@[l].vest) by {
                if l == position {
                    assert(ledger.employees@[k] == old(ledger).employees@[k]);
                    if ledger.employees@[k].beneficiary == accounts.beneficiary
                        && ledger.employees@[k].vest == accounts.vest {
                        assert(crate::state::ledger::is_schedule_of(
                            old(ledger).employees@,
                            k,
                            accounts.beneficiary,
                            accounts.vest as int,
                        ));
                    }
                }
            }
        }
        Ok(position)
    }
}

} // verus!

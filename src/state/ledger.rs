use vstd::prelude::*;

use crate::state::employee::Employee;
use crate::state::pubkey::Pubkey;
use crate::state::vest::Vest;

verus! {

/// Every pool and schedule, indexed so that a pool is known by its name and a
/// schedule by its beneficiary and pool: the two keys the entities' addresses
/// are derived from. Entities are never removed, so a position stays valid.
pub struct Ledger {
    pub vests: Vec<Vest>,
    pub employees: Vec<Employee>,
}

/// Whether some pool in `vests` is named `name`.
pub open spec fn name_taken(vests: Seq<Vest>, name: Seq<char>) -> bool {
    exists|i: int| 0 <= i < vests.len() && #[trigger] vests[i].company_name@ == name
}

/// Whether `employees[k]` is the schedule of `beneficiary` under pool `vest`.
pub open spec fn is_schedule_of(employees: Seq<Employee>, k: int, beneficiary: Pubkey, vest: int) -> bool {
    0 <= k < employees.len() && employees[k].beneficiary == beneficiary && employees[k].vest == vest
}

/// Whether `beneficiary` already has a schedule under pool `vest`.
pub open spec fn schedule_exists(employees: Seq<Employee>, beneficiary: Pubkey, vest: int) -> bool {
    exists|k: int| #[trigger] is_schedule_of(employees, k, beneficiary, vest)
}

impl Ledger {
    /// Names are unique among pools, each schedule is well formed and refers to
    /// an existing pool, and a beneficiary has at most one schedule per pool.
    pub open spec fn wf(&self) -> bool {
        &&& forall|i: int, j: int|
            0 <= i < j < self.vests@.len() ==> #[trigger] self.vests@[i].company_name@
                != #[trigger] self.vests@[j].company_name@
        &&& forall|k: int|
            0 <= k < self.employees@.len() ==> (#[trigger] self.employees@[k]).wf()
                && self.employees@[k].vest < self.vests@.len()
        &&& forall|k: int, l: int|
            0 <= k < l < self.employees@.len() ==> !(#[trigger] self.employees@[k].beneficiary
                == #[trigger] self.employees@[l].beneficiary && self.employees@[k].vest
                == self.employees@[l].vest)
    }

    /// A ledger with no pools and no schedules.
    pub fn new() -> (r: Ledger)
        ensures
            r.wf(),
            r.vests@.len() == 0,
            r.employees@.len() == 0,
    {
        Ledger { vests: Vec::new(), employees: Vec::new() }
    }

    /// The position of the pool named `name`, if there is one.
    pub fn find_vest(&self, name: &String) -> (r: Option<usize>)
        ensures
            r is None <==> !name_taken(self.vests@, name@),
            r matches Some(i) ==> i < self.vests@.len() && self.vests@[i as int].company_name@
                == name@,
    {
        let mut i: usize = 0;
        while i < self.vests.len()
            invariant
                i <= self.vests@.len(),
                forall|j: int| 0 <= j < i ==> self.vests@[j].company_name@ != name@,
            decreases self.vests@.len() - i,
        {
            if self.vests[i].company_name == *name {
                return Some(i);
            }
            i = i + 1;
        }
        None
    }

    /// The position of the schedule of `beneficiary` under pool `vest`, if any.
    pub fn find_employee(&self, beneficiary: Pubkey, vest: usize) -> (r: Option<usize>)
        ensures
            r is None <==> !schedule_exists(self.employees@, beneficiary, vest as int),
            r matches Some(k) ==> is_schedule_of(self.employees@, k as int, beneficiary, vest as int),
    {
        let mut k: usize = 0;
        while k < self.employees.len()
            invariant
                k <= self.employees@.len(),
                forall|j: int| 0 <= j < k ==> !is_schedule_of(self.employees@, j, beneficiary, vest as int),
            decreases self.employees@.len() - k,
        {
            if self.employees[k].beneficiary == beneficiary && self.employees[k].vest == vest {
                assert(is_schedule_of(self.employees@, k as int, beneficiary, vest as int));
                return Some(k);
            }
            k = k + 1;
        }
        proof {
            assert forall|j: int| !is_schedule_of(self.employees@, j, beneficiary, vest as int) by {
                if 0 <= j < k {
                }
            }
        }
        None
    }
}

} // verus!

use vstd::prelude::*;

use crate::error::VestingError;
use crate::state::ledger::{name_taken, Ledger};
use crate::state::pubkey::Pubkey;
use crate::state::vest::Vest;

verus! {

/// What a pool is created with: its owner, the asset it pays out, and the
/// treasury balance that will fund it.
#[derive(Debug, Clone, Copy, PartialEq, Eq, Structural)]
pub struct CreateVest {
    pub owner: Pubkey,
    pub mint: Pubkey,
    pub treasury: Pubkey,
}

/// What creating a pool leaves behind: a name in use is refused and changes
/// nothing; otherwise the new pool stands at the end and its position is returned.
pub open spec fn vest_created(
    pre: Ledger,
    post: Ledger,
    accounts: CreateVest,
    company_name: String,
    r: Result<usize, VestingError>,
) -> bool {
    &&& post.employees@ == pre.employees@
    &&& name_taken(pre.vests@, company_name@) <==> r == Err::<usize, VestingError>(
        VestingError::DuplicateEntity,
    )
    &&& r is Err ==> post.vests@ == pre.vests@
    &&& !name_taken(pre.vests@, company_name@) ==> r == Ok::<usize, VestingError>(
        pre.vests@.len() as usize,
    )
    &&& r is Ok ==> r == Ok::<usize, VestingError>(pre.vests@.len() as usize) && post.vests@
        == pre.vests@.push(
        (Vest {
            owner: accounts.owner,
            mint: accounts.mint,
            treasury: accounts.treasury,
            company_name,
        }),
    )
}

impl CreateVest {
    /// Creates the pool named `company_name` and returns its position. Names are
    /// one space for all owners: a name in use by any pool is refused.
    pub fn create_vest(ledger: &mut Ledger, accounts: CreateVest, company_name: String) -> (r: Result<
        usize,
        VestingError,
    >)
        requires
            old(ledger).wf(),
        ensures
            final(ledger).wf(),
            vest_created(*old(ledger), *final(ledger), accounts, company_name, r),
    {
        if ledger.find_vest(&company_name).is_some() {
            return Err(VestingError::DuplicateEntity);
        }
        let position = ledger.vests.len();
        let vest = Vest {
            owner: accounts.owner,
            mint: accounts.mint,
            treasury: accounts.treasury,
            company_name,
        };
        ledger.vests.push(vest);
        proof {
            assert forall|i: int, j: int| 0 <= i < j < ledger.vests@.len() implies #[trigger] ledger.vests@[i].company_name@
                != #[trigger] ledger.vests@[j].company_name@ by {
                if j == position {
                    assert(old(ledger).vests@[i].company_name@ == ledger.vests@[i].company_name@);
                }
            }
        }
        Ok(position)
    }
}

} // verus!

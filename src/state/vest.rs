use vstd::prelude::*;

use crate::state::pubkey::Pubkey;

verus! {

/// A vesting pool: who administers it, which asset it pays out, the treasury
/// balance that funds its schedules, and the name that identifies it.
pub struct Vest {
    pub owner: Pubkey,
    pub mint: Pubkey,
    pub treasury: Pubkey,
    pub company_name: String,
}

} // verus!

//! A token vesting engine: pools funded by an owner, per-beneficiary schedules
//! released linearly between a start and an end time behind a cliff, and claims
//! that pay out exactly what has vested and not yet been withdrawn.
pub mod error;
pub mod instructions;
pub mod laws;
pub mod state;
pub mod vesting;

pub use error::VestingError;
pub use instructions::claim_tokens::ClaimTokens;
pub use instructions::create_employee::{CreateEmployee, CreateEmployeeArgs};
pub use instructions::create_vest::CreateVest;
pub use state::employee::Employee;
pub use state::ledger::Ledger;
pub use state::pubkey::Pubkey;
pub use state::vest::Vest;

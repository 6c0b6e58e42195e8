pub mod employee;
pub mod ledger;
pub mod pubkey;
pub mod vest;

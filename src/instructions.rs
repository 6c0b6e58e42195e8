pub mod claim_tokens;
pub mod create_employee;
pub mod create_vest;

use vstd::prelude::*;

verus! {

/// Why an operation of the vesting engine was refused.
#[derive(Debug, Clone, Copy, PartialEq, Eq, Structural)]
pub enum VestingError {
    /// A claim was made before the schedule's cliff.
    ClaimNotAvailableYet,
    /// Everything vested so far has already been withdrawn.
    NothingToClaim,
    /// The caller is not the party the operation requires.
    Unauthorized,
    /// An entity already exists at the address being created.
    DuplicateEntity,
    /// The treasury holds less than the amount to be paid out.
    InsufficientFunds,
    /// No entity exists at the address being read.
    UnknownEntity,
}

} // verus!

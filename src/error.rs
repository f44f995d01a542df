use vstd::prelude::*;

verus! {

/// Why an instruction was refused. A refused instruction changes nothing.
#[derive(Clone, Copy, Debug, PartialEq, Eq, Structural)]
pub enum CustomError {
    NotRentExempt,
    InsufficientFunds,
    InvalidMint,
    /// The account does not belong to the mint given.
    MintMismatch,
    /// The caller is not the owner or authority that the record names.
    OwnerMismatch,
    /// The mint authority is absent: no more tokens can ever be minted.
    FixedSupply,
    /// The record was initialized already.
    AlreadyInUse,
    InvalidNumberOfProvidedSigners,
    InvalidNumberOfRequiredSigners,
    /// The record is not (or not in the state of being) initialized.
    UninitializedState,
    NativeNotSupported,
    NonNativeHasBalance,
    InvalidInstruction,
    /// The account is not in the state the instruction needs.
    InvalidState,
    /// A plaintext sum left the range of its type.
    Overflow,
    AuthorityTypeNotSupported,
    /// The freeze authority is absent: no account of the mint can be frozen.
    MintCannotFreeze,
    /// The account is frozen.
    AccountFrozen,
    /// The decimals given differ from the mint's.
    MintDecimalsMismatch,
    NonNativeNotSupported,
}

} // verus!

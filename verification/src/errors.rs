use vstd::prelude::*;

verus! {

/// Failure conditions of the escrow engine.
///
/// Every entry point is total: it either succeeds or reports exactly one of
/// these conditions, and a failed instruction leaves every account model
/// untouched from the caller's point of view (the host ledger applies an
/// instruction's effects all or nothing).
#[derive(Clone, Copy, Debug, PartialEq, Eq, Structural)]
pub enum EscrowError {
    /// The instruction was handed fewer (or otherwise than the expected
    /// number of) accounts.
    NotEnoughAccountKeys,
    /// An account that must authorize the instruction did not sign it.
    MissingRequiredSignature,
    /// An account is owned by the wrong program, or a re-derived address did
    /// not match the supplied account.
    InvalidAccountOwner,
    /// Account data has the wrong length or fails a content check.
    InvalidAccountData,
    /// The payload is malformed: wrong length, unknown discriminator, or a
    /// zero amount where a positive one is required.
    InvalidInstructionData,
    /// A state account that must already be initialized is not.
    UninitializedAccount,
    /// An account that must be created afresh already holds data or an owner.
    AccountAlreadyInitialized,
    /// A deterministic address could not be derived from the given seed list.
    InvalidSeeds,
    /// A transfer or account creation asked for more funds than are present.
    InsufficientFunds,
    /// A balance update would exceed the representable range.
    ArithmeticOverflow,
}

} // verus!

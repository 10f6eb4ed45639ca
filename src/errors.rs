use vstd::prelude::*;

verus! {

/// The program's own failure kinds.
#[derive(Clone, Copy, Debug, PartialEq, Eq, Structural)]
pub enum CustomError {
    /// The requester has no allow-list entry.
    UserNotAllowed,
    /// The requester's first allow-list entry has no quota left.
    AlreadyClaimed,
    /// The presented pass-token mint is not the configured one.
    InvalidAllowMint,
    /// The presented token account does not hold the pass token for the requester.
    InvalidAllowMintATA,
    /// Issuance is switched off.
    CandyMachineInactive,
    /// The pass token's decimals give a burn amount that does not fit in 64 bits.
    InvalidSPLSettings,
}

/// Every way an instruction can fail: the program's own kinds, and the
/// account constraints that the host framework enforces before the handler runs.
#[derive(Clone, Copy, Debug, PartialEq, Eq, Structural)]
pub enum Error {
    Custom(CustomError),
    /// `initialize` found a configuration record already in place.
    AccountAlreadyInitialized,
    /// The configuration record does not exist (never created, or reclaimed).
    AccountNotInitialized,
    /// The configuration record is not the one derived from the given authority.
    ConstraintSeeds,
    /// Growing the record would pass the host's limit on account size.
    AccountReallocExceedsLimit,
    /// The record is live with its whole supply issued; nothing more may be issued.
    SupplyExhausted,
}

} // verus!

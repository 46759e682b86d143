//! The typed reasons a request can be rejected.  Every validator aborts the
//! whole request at its first failing predicate with one of these; no
//! partial mutation is ever committed.

use vstd::prelude::*;

verus! {

#[derive(Clone, Copy, Debug, PartialEq, Eq, Structural)]
pub enum RewardError {
    /// Caller does not match the current administrator (or candidate).
    UnauthorizedAdmin,
    /// Claimant is neither the host nor the manufacturer of the node.
    UnauthorizedUser,
    /// The transaction carries no authenticating admin signature.
    MissingAdminSignature,
    /// Presented nonce is not acceptable against the stored nonce.
    NonceAlreadyClaimed,
    /// The system is paused.
    ProgramPaused,
    /// A claim for the same role was already honored today.
    ClaimAlreadyMadeToday,
    /// A cumulative counter would overflow.
    ArithmeticOverflow,
    /// The presented balance is not held in the named credential, or the
    /// balance holder is not owned by the expected token program.
    InvalidNftMint,
    /// The claimant holds no balance of the credential.
    InsufficientNftBalance,
    /// A node entry already exists for this credential.
    InvalidNfNodeEntry,
    /// The presented balance holder is not the derived sub-account.
    InvalidNftTokenAccount,
    /// The credential's total supply is not exactly one.
    InvalidNftSupply,
    /// The credential's fractional precision is not zero.
    InvalidNftDecimals,
    /// Proposed administrator equals the current administrator.
    SameAdminPubkey,
    /// Proposed administrator equals the current candidate.
    SameAdminCandidatePubkey,
    /// The pending handover was already accepted.
    AlreadyAccepted,
    /// Pause requested while already paused.
    AlreadyPaused,
    /// Unpause requested while already running.
    AlreadyRunning,
    /// A real identity is required where the default identity was supplied.
    InvalidPubkey,
    /// Reward amount must be greater than zero.
    InvalidRewardAmount,
    /// Funding amount must be greater than zero.
    InvalidFundingAmount,
    /// Deposit amount must equal the fixed collateral amount.
    InvalidDepositAmount,
    /// A deposit is already active for this node.
    DepositAlreadyMade,
    /// The deposit was already withdrawn (nothing to withdraw).
    WithdrawAlreadyMade,
    /// The minimum lock duration has not elapsed since the deposit.
    WithdrawTooEarly,
    /// The offered asset class is not the recognized collateral asset.
    InvalidMint,
    /// A non-DON node must hold the fixed collateral before claiming.
    DepositRequired,
    /// The credential's minting authority is not on the allow-list.
    UnauthorizedMintAuthority,
    /// The allow-list already holds the maximum number of authorities.
    MintAuthorityListFull,
    /// The authority is already on the allow-list.
    MintAuthorityAlreadyExists,
    /// The authority is not on the allow-list.
    MintAuthorityNotFound,
}

} // verus!

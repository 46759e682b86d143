//! The collateral escrow: a node operator locks the fixed collateral
//! amount against a credential and may release it again only after the
//! minimum lock duration, measured in whole days.

use vstd::prelude::*;
use crate::pubkey::Pubkey;
use crate::errors::RewardError;
use crate::state::{NfNodeEntry, AdminAccount, DEPOSIT_AMOUNT, SECONDS_PER_DAY, WITHDRAW_LOCK_DAYS, day_of, day_index};
use crate::credential::{CredentialFacts, escrow_credential_decision, check_escrow_credential};
use crate::transfer::TransferInstruction;

verus! {

/// An escrow request: the asset class offered as collateral, and the
/// balance holders the emitted transfer moves between.
#[derive(Clone, Copy, Debug)]
pub struct EscrowRequest {
    /// The depositing credential holder.
    pub depositor: Pubkey,
    /// The fungible asset class offered; must be the recognized collateral
    /// asset.
    pub asset_class: Pubkey,
    /// The depositor's balance holder for the collateral asset.
    pub depositor_account: Pubkey,
    /// The escrow balance holder scoped to this credential.
    pub escrow_account: Pubkey,
    /// The derived authority entitled to move the escrow balance.
    pub escrow_authority: Pubkey,
}

/// The node entry after a successful deposit.
pub open spec fn deposit_applied(n: NfNodeEntry, now: u64) -> NfNodeEntry {
    NfNodeEntry { deposit_amount: DEPOSIT_AMOUNT, deposit_timestamp: now, ..n }
}

/// The node entry after a successful withdraw.
pub open spec fn withdraw_applied(n: NfNodeEntry, now: u64) -> NfNodeEntry {
    NfNodeEntry { deposit_amount: 0, deposit_timestamp: now, ..n }
}

/// Whether the lock has expired: the current day must exceed the deposit's
/// day by more than the lock duration.
pub open spec fn lock_expired(deposit_timestamp: u64, now: u64) -> bool {
    day_of(now) > day_of(deposit_timestamp) + WITHDRAW_LOCK_DAYS
}

/// The decision of a deposit request: the first failing predicate, or `Ok`.
pub open spec fn deposit_decision(
    admin: AdminAccount,
    node: NfNodeEntry,
    cred: CredentialFacts,
    req: EscrowRequest,
) -> Result<(), RewardError> {
    if admin.paused {
        Err(RewardError::ProgramPaused)
    } else if node.deposit_amount != 0 {
        Err(RewardError::DepositAlreadyMade)
    } else if req.asset_class != admin.valid_mint {
        Err(RewardError::InvalidMint)
    } else {
        escrow_credential_decision(cred, admin)
    }
}

/// The decision of a withdraw request.
pub open spec fn withdraw_decision(
    admin: AdminAccount,
    node: NfNodeEntry,
    cred: CredentialFacts,
    req: EscrowRequest,
    now: u64,
) -> Result<(), RewardError> {
    if admin.paused {
        Err(RewardError::ProgramPaused)
    } else if node.deposit_amount != DEPOSIT_AMOUNT {
        Err(RewardError::WithdrawAlreadyMade)
    } else if req.asset_class != admin.valid_mint {
        Err(RewardError::InvalidMint)
    } else if escrow_credential_decision(cred, admin) is Err {
        escrow_credential_decision(cred, admin)
    } else if !lock_expired(node.deposit_timestamp, now) {
        Err(RewardError::WithdrawTooEarly)
    } else {
        Ok(())
    }
}

/// Validates a deposit and, on success, records the fixed collateral
/// against the node and emits the transfer of exactly that amount from the
/// depositor into the credential's escrow.
pub fn deposit_tokens(
    admin: &AdminAccount,
    node: &mut NfNodeEntry,
    cred: &CredentialFacts,
    req: &EscrowRequest,
    now: u64,
) -> (r: Result<TransferInstruction, RewardError>)
    ensures
        match r {
            Ok(t) => {
                &&& deposit_decision(*admin, *old(node), *cred, *req) == Ok::<(), RewardError>(())
                &&& *final(node) == deposit_applied(*old(node), now)
                &&& t == (TransferInstruction {
                    from: req.depositor_account,
                    to: req.escrow_account,
                    authority: req.depositor,
                    amount: DEPOSIT_AMOUNT,
                })
            },
            Err(e) => {
                &&& deposit_decision(*admin, *old(node), *cred, *req) == Err::<(), RewardError>(e)
                &&& *final(node) == *old(node)
            },
        },
        old(node).wf() ==> final(node).wf(),
{
    if admin.paused {
        return Err(RewardError::ProgramPaused);
    }
    if node.deposit_amount != 0 {
        return Err(RewardError::DepositAlreadyMade);
    }
    if req.asset_class != admin.valid_mint {
        return Err(RewardError::InvalidMint);
    }
    match check_escrow_credential(cred, admin) {
        Ok(()) => {},
        Err(e) => {
            return Err(e);
        },
    }
    node.deposit_amount = DEPOSIT_AMOUNT;
    node.deposit_timestamp = now;
    Ok(TransferInstruction {
        from: req.depositor_account,
        to: req.escrow_account,
        authority: req.depositor,
        amount: DEPOSIT_AMOUNT,
    })
}

/// Validates a withdraw and, on success, clears the node's escrow state and
/// emits the transfer of exactly the fixed collateral from the credential's
/// escrow back to the depositor.
pub fn withdraw_tokens(
    admin: &AdminAccount,
    node: &mut NfNodeEntry,
    cred: &CredentialFacts,
    req: &EscrowRequest,
    now: u64,
) -> (r: Result<TransferInstruction, RewardError>)
    ensures
        match r {
            Ok(t) => {
                &&& withdraw_decision(*admin, *old(node), *cred, *req, now) == Ok::<
                    (),
                    RewardError,
                >(())
                &&& *final(node) == withdraw_applied(*old(node), now)
                &&& t == (TransferInstruction {
                    from: req.escrow_account,
                    to: req.depositor_account,
                    authority: req.escrow_authority,
                    amount: DEPOSIT_AMOUNT,
                })
            },
            Err(e) => {
                &&& withdraw_decision(*admin, *old(node), *cred, *req, now) == Err::<
                    (),
                    RewardError,
                >(e)
                &&& *final(node) == *old(node)
            },
        },
        old(node).wf() ==> final(node).wf(),
{
    if admin.paused {
        return Err(RewardError::ProgramPaused);
    }
    if node.deposit_amount != DEPOSIT_AMOUNT {
        return Err(RewardError::WithdrawAlreadyMade);
    }
    if req.asset_class != admin.valid_mint {
        return Err(RewardError::InvalidMint);
    }
    match check_escrow_credential(cred, admin) {
        Ok(()) => {},
        Err(e) => {
            return Err(e);
        },
    }
    let current_day = day_index(now);
    let deposit_day = day_index(node.deposit_timestamp);
    proof {
        vstd::arithmetic::div_mod::lemma_div_is_ordered(
            node.deposit_timestamp as int,
            u64::MAX as int,
            SECONDS_PER_DAY as int,
        );
    }
    if !(current_day > deposit_day + WITHDRAW_LOCK_DAYS) {
        return Err(RewardError::WithdrawTooEarly);
    }
    node.deposit_amount = 0;
    node.deposit_timestamp = now;
    Ok(TransferInstruction {
        from: req.escrow_account,
        to: req.depositor_account,
        authority: req.escrow_authority,
        amount: DEPOSIT_AMOUNT,
    })
}

} // verus!

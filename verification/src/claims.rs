//! The claim validators.  A claim request names a reward amount and a
//! replay-protection nonce, carries authorization facts for the
//! administrator and the claimant, and references the pooled reward escrow.
//! The validator checks pause state, authorization, freshness and
//! credential ownership; only when every predicate has passed does it
//! mutate the entries and emit the transfer instruction.

use vstd::prelude::*;
use crate::pubkey::Pubkey;
use crate::errors::RewardError;
use crate::state::{NfNodeEntry, RewardEntry, AdminAccount, DEPOSIT_AMOUNT, NfNodeType, day_of, day_index};
use crate::credential::{CredentialFacts, claim_credential_decision, check_claim_credential};
use crate::transfer::TransferInstruction;

verus! {

/// A claim request, as assembled by the surrounding ledger: identities,
/// authorization facts, parameters, and the escrow addresses the emitted
/// transfer will move funds between.
#[derive(Clone, Copy, Debug)]
pub struct ClaimRequest {
    /// The party presenting admin authority.
    pub admin_caller: Pubkey,
    /// Whether the transaction carries an authenticating signature from
    /// `admin_caller`.
    pub admin_signed: bool,
    /// The claimant; for non-owner claims it must be the node's host or
    /// manufacturer.
    pub claimant: Pubkey,
    /// Units of reward requested.
    pub reward_amount: u64,
    /// Caller-supplied replay-protection counter.
    pub nonce: u64,
    /// The pooled reward escrow balance holder (transfer source).
    pub pool_account: Pubkey,
    /// The derived authority entitled to move the pooled escrow.
    pub pool_authority: Pubkey,
    /// The claimant's balance holder (transfer destination).
    pub recipient_account: Pubkey,
}

/// Whether a presented nonce is acceptable against the stored one: it must
/// strictly increase, except the two bootstrap cases (first-ever claim on a
/// fresh entry, and wraparound from the maximum representable value).
pub open spec fn nonce_ok(stored: u64, nonce: u64) -> bool {
    ||| nonce > stored
    ||| stored == 0 && nonce == 1
    ||| stored == u64::MAX && nonce == 1
}

/// The claim entry after a successful claim: nonce and timestamp recorded,
/// cumulative rewards increased.
pub open spec fn reward_entry_applied(r: RewardEntry, nonce: u64, now: u64, amount: u64) -> RewardEntry {
    RewardEntry {
        last_claimed_nonce: nonce,
        last_claimed_timestamp: now,
        total_rewards_earned: (r.total_rewards_earned + amount) as u64,
    }
}

/// The node entry after a successful owner claim.
pub open spec fn node_owner_claim_applied(n: NfNodeEntry, now: u64, amount: u64) -> NfNodeEntry {
    NfNodeEntry {
        owner_last_claimed_timestamp: now,
        total_rewards_claimed: (n.total_rewards_claimed + amount) as u64,
        ..n
    }
}

/// The last-claim timestamp of the role `claimant` fills on the node; the
/// host takes precedence when one identity fills both roles.
pub open spec fn role_last_claimed(n: NfNodeEntry, claimant: Pubkey) -> u64 {
    if claimant == n.host {
        n.host_last_claimed_timestamp
    } else {
        n.manufacturer_last_claimed_timestamp
    }
}

/// The node entry after a successful host or manufacturer claim.
pub open spec fn node_role_claim_applied(n: NfNodeEntry, claimant: Pubkey, now: u64, amount: u64) -> NfNodeEntry {
    if claimant == n.host {
        NfNodeEntry {
            host_last_claimed_timestamp: now,
            total_rewards_claimed: (n.total_rewards_claimed + amount) as u64,
            ..n
        }
    } else {
        NfNodeEntry {
            manufacturer_last_claimed_timestamp: now,
            total_rewards_claimed: (n.total_rewards_claimed + amount) as u64,
            ..n
        }
    }
}

/// The decision of an owner claim: the first failing predicate, or `Ok`.
pub open spec fn owner_claim_decision(
    admin: AdminAccount,
    node: NfNodeEntry,
    reward: RewardEntry,
    cred: CredentialFacts,
    req: ClaimRequest,
    now: u64,
) -> Result<(), RewardError> {
    if admin.paused {
        Err(RewardError::ProgramPaused)
    } else if req.reward_amount == 0 {
        Err(RewardError::InvalidRewardAmount)
    } else if !nonce_ok(reward.last_claimed_nonce, req.nonce) {
        Err(RewardError::NonceAlreadyClaimed)
    } else if req.admin_caller != admin.admin_pubkey {
        Err(RewardError::UnauthorizedAdmin)
    } else if !req.admin_signed {
        Err(RewardError::MissingAdminSignature)
    } else if node.nfnode_type.requires_deposit() && node.deposit_amount != DEPOSIT_AMOUNT {
        Err(RewardError::DepositRequired)
    } else if !(day_of(now) > day_of(reward.last_claimed_timestamp) && day_of(now) > day_of(
        node.owner_last_claimed_timestamp,
    )) {
        Err(RewardError::ClaimAlreadyMadeToday)
    } else if claim_credential_decision(cred, admin) is Err {
        claim_credential_decision(cred, admin)
    } else if node.total_rewards_claimed + req.reward_amount > u64::MAX
        || reward.total_rewards_earned + req.reward_amount > u64::MAX {
        Err(RewardError::ArithmeticOverflow)
    } else {
        Ok(())
    }
}

/// The decision of a host or manufacturer claim.  It shares the owner
/// claim's shape; the claimant must additionally fill one of the two
/// revenue-share roles, and the same-day throttle reads that role's own
/// last-claim timestamp.
pub open spec fn others_claim_decision(
    admin: AdminAccount,
    node: NfNodeEntry,
    reward: RewardEntry,
    cred: CredentialFacts,
    req: ClaimRequest,
    now: u64,
) -> Result<(), RewardError> {
    if admin.paused {
        Err(RewardError::ProgramPaused)
    } else if req.reward_amount == 0 {
        Err(RewardError::InvalidRewardAmount)
    } else if !nonce_ok(reward.last_claimed_nonce, req.nonce) {
        Err(RewardError::NonceAlreadyClaimed)
    } else if req.admin_caller != admin.admin_pubkey {
        Err(RewardError::UnauthorizedAdmin)
    } else if !req.admin_signed {
        Err(RewardError::MissingAdminSignature)
    } else if req.claimant != node.host && req.claimant != node.manufacturer {
        Err(RewardError::UnauthorizedUser)
    } else if node.nfnode_type.requires_deposit() && node.deposit_amount != DEPOSIT_AMOUNT {
        Err(RewardError::DepositRequired)
    } else if !(day_of(now) > day_of(reward.last_claimed_timestamp) && day_of(now) > day_of(
        role_last_claimed(node, req.claimant),
    )) {
        Err(RewardError::ClaimAlreadyMadeToday)
    } else if claim_credential_decision(cred, admin) is Err {
        claim_credential_decision(cred, admin)
    } else if node.total_rewards_claimed + req.reward_amount > u64::MAX
        || reward.total_rewards_earned + req.reward_amount > u64::MAX {
        Err(RewardError::ArithmeticOverflow)
    } else {
        Ok(())
    }
}

/// Validates and applies a claim by the node's owner.  On success both
/// entries are updated atomically and the returned instruction moves the
/// reward from the pooled escrow to the claimant; on rejection nothing
/// changes.
pub fn owner_claim_rewards(
    admin: &AdminAccount,
    node: &mut NfNodeEntry,
    reward: &mut RewardEntry,
    cred: &CredentialFacts,
    req: &ClaimRequest,
    now: u64,
) -> (r: Result<TransferInstruction, RewardError>)
    ensures
        match r {
            Ok(t) => {
                &&& owner_claim_decision(*admin, *old(node), *old(reward), *cred, *req, now)
                    == Ok::<(), RewardError>(())
                &&& *final(node) == node_owner_claim_applied(*old(node), now, req.reward_amount)
                &&& *final(reward) == reward_entry_applied(
                    *old(reward),
                    req.nonce,
                    now,
                    req.reward_amount,
                )
                &&& t == (TransferInstruction {
                    from: req.pool_account,
                    to: req.recipient_account,
                    authority: req.pool_authority,
                    amount: req.reward_amount,
                })
            },
            Err(e) => {
                &&& owner_claim_decision(*admin, *old(node), *old(reward), *cred, *req, now)
                    == Err::<(), RewardError>(e)
                &&& *final(node) == *old(node)
                &&& *final(reward) == *old(reward)
            },
        },
        old(node).wf() ==> final(node).wf(),
{
    if admin.paused {
        return Err(RewardError::ProgramPaused);
    }
    if req.reward_amount == 0 {
        return Err(RewardError::InvalidRewardAmount);
    }
    let nonce_acceptable = req.nonce > reward.last_claimed_nonce || (reward.last_claimed_nonce == 0
        && req.nonce == 1) || (reward.last_claimed_nonce == u64::MAX && req.nonce == 1);
    if !nonce_acceptable {
        return Err(RewardError::NonceAlreadyClaimed);
    }
    if req.admin_caller != admin.admin_pubkey {
        return Err(RewardError::UnauthorizedAdmin);
    }
    if !req.admin_signed {
        return Err(RewardError::MissingAdminSignature);
    }
    if node.nfnode_type != NfNodeType::DON && node.deposit_amount != DEPOSIT_AMOUNT {
        return Err(RewardError::DepositRequired);
    }
    let current_day = day_index(now);
    let entry_day = day_index(reward.last_claimed_timestamp);
    let owner_day = day_index(node.owner_last_claimed_timestamp);
    if !(current_day > entry_day && current_day > owner_day) {
        return Err(RewardError::ClaimAlreadyMadeToday);
    }
    match check_claim_credential(cred, admin) {
        Ok(()) => {},
        Err(e) => {
            return Err(e);
        },
    }
    let claimed_total = match node.total_rewards_claimed.checked_add(req.reward_amount) {
        Some(v) => v,
        None => {
            return Err(RewardError::ArithmeticOverflow);
        },
    };
    let earned_total = match reward.total_rewards_earned.checked_add(req.reward_amount) {
        Some(v) => v,
        None => {
            return Err(RewardError::ArithmeticOverflow);
        },
    };
    reward.last_claimed_nonce = req.nonce;
    reward.last_claimed_timestamp = now;
    reward.total_rewards_earned = earned_total;
    node.owner_last_claimed_timestamp = now;
    node.total_rewards_claimed = claimed_total;
    Ok(TransferInstruction {
        from: req.pool_account,
        to: req.recipient_account,
        authority: req.pool_authority,
        amount: req.reward_amount,
    })
}

/// Validates and applies a claim by the node's host or manufacturer.  The
/// matched role's last-claim timestamp is read by the same-day throttle and
/// recorded on success.
pub fn others_claim_rewards(
    admin: &AdminAccount,
    node: &mut NfNodeEntry,
    reward: &mut RewardEntry,
    cred: &CredentialFacts,
    req: &ClaimRequest,
    now: u64,
) -> (r: Result<TransferInstruction, RewardError>)
    ensures
        match r {
            Ok(t) => {
                &&& others_claim_decision(*admin, *old(node), *old(reward), *cred, *req, now)
                    == Ok::<(), RewardError>(())
                &&& *final(node) == node_role_claim_applied(
                    *old(node),
                    req.claimant,
                    now,
                    req.reward_amount,
                )
                &&& *final(reward) == reward_entry_applied(
                    *old(reward),
                    req.nonce,
                    now,
                    req.reward_amount,
                )
                &&& t == (TransferInstruction {
                    from: req.pool_account,
                    to: req.recipient_account,
                    authority: req.pool_authority,
                    amount: req.reward_amount,
                })
            },
            Err(e) => {
                &&& others_claim_decision(*admin, *old(node), *old(reward), *cred, *req, now)
                    == Err::<(), RewardError>(e)
                &&& *final(node) == *old(node)
                &&& *final(reward) == *old(reward)
            },
        },
        old(node).wf() ==> final(node).wf(),
{
    if admin.paused {
        return Err(RewardError::ProgramPaused);
    }
    if req.reward_amount == 0 {
        return Err(RewardError::InvalidRewardAmount);
    }
    let nonce_acceptable = req.nonce > reward.last_claimed_nonce || (reward.last_claimed_nonce == 0
        && req.nonce == 1) || (reward.last_claimed_nonce == u64::MAX && req.nonce == 1);
    if !nonce_acceptable {
        return Err(RewardError::NonceAlreadyClaimed);
    }
    if req.admin_caller != admin.admin_pubkey {
        return Err(RewardError::UnauthorizedAdmin);
    }
    if !req.admin_signed {
        return Err(RewardError::MissingAdminSignature);
    }
    if req.claimant != node.host && req.claimant != node.manufacturer {
        return Err(RewardError::UnauthorizedUser);
    }
    if node.nfnode_type != NfNodeType::DON && node.deposit_amount != DEPOSIT_AMOUNT {
        return Err(RewardError::DepositRequired);
    }
    let current_day = day_index(now);
    let entry_day = day_index(reward.last_claimed_timestamp);
    let role_day = if req.claimant == node.host {
        day_index(node.host_last_claimed_timestamp)
    } else {
        day_index(node.manufacturer_last_claimed_timestamp)
    };
    if !(current_day > entry_day && current_day > role_day) {
        return Err(RewardError::ClaimAlreadyMadeToday);
    }
    match check_claim_credential(cred, admin) {
        Ok(()) => {},
        Err(e) => {
            return Err(e);
        },
    }
    let claimed_total = match node.total_rewards_claimed.checked_add(req.reward_amount) {
        Some(v) => v,
        None => {
            return Err(RewardError::ArithmeticOverflow);
        },
    };
    let earned_total = match reward.total_rewards_earned.checked_add(req.reward_amount) {
        Some(v) => v,
        None => {
            return Err(RewardError::ArithmeticOverflow);
        },
    };
    reward.last_claimed_nonce = req.nonce;
    reward.last_claimed_timestamp = now;
    reward.total_rewards_earned = earned_total;
    if req.claimant == node.host {
        node.host_last_claimed_timestamp = now;
    } else {
        node.manufacturer_last_claimed_timestamp = now;
    }
    node.total_rewards_claimed = claimed_total;
    Ok(TransferInstruction {
        from: req.pool_account,
        to: req.recipient_account,
        authority: req.pool_authority,
        amount: req.reward_amount,
    })
}

} // verus!

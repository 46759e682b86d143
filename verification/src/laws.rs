//! The laws of the state machine that relate several operations, proved
//! over the validators' decision functions.  Each exec validator's own
//! contract ties it to its decision function, so these laws carry over to
//! the executable code.

use vstd::prelude::*;
use crate::pubkey::Pubkey;
use crate::errors::RewardError;
use crate::state::{AdminAccount, NfNodeEntry, RewardEntry, MAX_MINT_AUTHORITIES, WITHDRAW_LOCK_DAYS, day_of};
use crate::credential::{CredentialFacts, escrow_credential_decision};
use crate::claims::{
    ClaimRequest, nonce_ok, reward_entry_applied, node_owner_claim_applied, node_role_claim_applied,
    owner_claim_decision, others_claim_decision,
};
use crate::escrow::{EscrowRequest, deposit_applied, withdraw_applied, deposit_decision, withdraw_decision};
use crate::admin_ops::{
    update_admin_request_decision, accept_admin_request_decision, add_mint_authority_decision,
    remove_mint_authority_decision,
};

verus! {

/// Nonce monotonicity: once a claim has been accepted and its nonce
/// recorded on the claim entry, any later claim presenting the same nonce
/// is rejected, whatever else may have changed around it.  A nonce is thus
/// accepted at most once per claim entry.
pub proof fn lemma_nonce_accepted_at_most_once(
    admin1: AdminAccount,
    node1: NfNodeEntry,
    reward: RewardEntry,
    cred1: CredentialFacts,
    req1: ClaimRequest,
    t1: u64,
    admin2: AdminAccount,
    node2: NfNodeEntry,
    cred2: CredentialFacts,
    req2: ClaimRequest,
    t2: u64,
)
    requires
        owner_claim_decision(admin1, node1, reward, cred1, req1, t1) is Ok || others_claim_decision(
            admin1,
            node1,
            reward,
            cred1,
            req1,
            t1,
        ) is Ok,
        req2.nonce == req1.nonce,
    ensures
        owner_claim_decision(
            admin2,
            node2,
            reward_entry_applied(reward, req1.nonce, t1, req1.reward_amount),
            cred2,
            req2,
            t2,
        ) is Err,
        others_claim_decision(
            admin2,
            node2,
            reward_entry_applied(reward, req1.nonce, t1, req1.reward_amount),
            cred2,
            req2,
            t2,
        ) is Err,
{
    assert(!nonce_ok(req1.nonce, req1.nonce));
}

/// Daily throttle for owner claims: after a claim accepted at `t1`, a
/// second owner claim at any `t2` in the same day window is rejected as
/// already made today, even when it passes every check that precedes the
/// throttle.
pub proof fn lemma_daily_throttle_owner(
    admin: AdminAccount,
    node: NfNodeEntry,
    reward: RewardEntry,
    cred1: CredentialFacts,
    req1: ClaimRequest,
    t1: u64,
    cred2: CredentialFacts,
    req2: ClaimRequest,
    t2: u64,
)
    requires
        owner_claim_decision(admin, node, reward, cred1, req1, t1) == Ok::<(), RewardError>(()),
        t1 < t2,
        day_of(t1) == day_of(t2),
        req2.reward_amount > 0,
        nonce_ok(req1.nonce, req2.nonce),
        req2.admin_caller == admin.admin_pubkey,
        req2.admin_signed,
    ensures
        owner_claim_decision(
            admin,
            node_owner_claim_applied(node, t1, req1.reward_amount),
            reward_entry_applied(reward, req1.nonce, t1, req1.reward_amount),
            cred2,
            req2,
            t2,
        ) == Err::<(), RewardError>(RewardError::ClaimAlreadyMadeToday),
{
}

/// Daily throttle for host and manufacturer claims: the claim entry records
/// `t1`, so a second claim by the same claimant in the same day window is
/// rejected as already made today.
pub proof fn lemma_daily_throttle_others(
    admin: AdminAccount,
    node: NfNodeEntry,
    reward: RewardEntry,
    cred1: CredentialFacts,
    req1: ClaimRequest,
    t1: u64,
    cred2: CredentialFacts,
    req2: ClaimRequest,
    t2: u64,
)
    requires
        others_claim_decision(admin, node, reward, cred1, req1, t1) == Ok::<(), RewardError>(()),
        t1 < t2,
        day_of(t1) == day_of(t2),
        req2.reward_amount > 0,
        nonce_ok(req1.nonce, req2.nonce),
        req2.admin_caller == admin.admin_pubkey,
        req2.admin_signed,
        req2.claimant == req1.claimant,
    ensures
        others_claim_decision(
            admin,
            node_role_claim_applied(node, req1.claimant, t1, req1.reward_amount),
            reward_entry_applied(reward, req1.nonce, t1, req1.reward_amount),
            cred2,
            req2,
            t2,
        ) == Err::<(), RewardError>(RewardError::ClaimAlreadyMadeToday),
{
}

/// Deposit/withdraw round trip: after a successful deposit at `t0`, a
/// withdraw whose re-presented credential still passes the escrow checks
/// succeeds once the lock has expired, and the escrow state is cleared.
/// The exec validator's contract adds that the emitted transfer returns
/// exactly the fixed collateral.
pub proof fn lemma_deposit_withdraw_round_trip(
    admin: AdminAccount,
    node: NfNodeEntry,
    cred_d: CredentialFacts,
    req_d: EscrowRequest,
    t0: u64,
    cred_w: CredentialFacts,
    req_w: EscrowRequest,
    t1: u64,
)
    requires
        deposit_decision(admin, node, cred_d, req_d) == Ok::<(), RewardError>(()),
        escrow_credential_decision(cred_w, admin) == Ok::<(), RewardError>(()),
        req_w.asset_class == admin.valid_mint,
        day_of(t1) > day_of(t0) + WITHDRAW_LOCK_DAYS,
    ensures
        withdraw_decision(admin, deposit_applied(node, t0), cred_w, req_w, t1) == Ok::<
            (),
            RewardError,
        >(()),
        withdraw_applied(deposit_applied(node, t0), t1).deposit_amount == 0,
{
}

/// A withdraw attempted before the lock expires is rejected as too early,
/// even when every other check passes.
pub proof fn lemma_withdraw_too_early(
    admin: AdminAccount,
    node: NfNodeEntry,
    cred_d: CredentialFacts,
    req_d: EscrowRequest,
    t0: u64,
    cred_w: CredentialFacts,
    req_w: EscrowRequest,
    t1: u64,
)
    requires
        deposit_decision(admin, node, cred_d, req_d) == Ok::<(), RewardError>(()),
        escrow_credential_decision(cred_w, admin) == Ok::<(), RewardError>(()),
        req_w.asset_class == admin.valid_mint,
        day_of(t1) <= day_of(t0) + WITHDRAW_LOCK_DAYS,
    ensures
        withdraw_decision(admin, deposit_applied(node, t0), cred_w, req_w, t1) == Err::<
            (),
            RewardError,
        >(RewardError::WithdrawTooEarly),
{
}

/// A second deposit before any withdraw is rejected: the active deposit is
/// seen whatever credential or request the second attempt presents.
pub proof fn lemma_second_deposit_rejected(
    admin: AdminAccount,
    node: NfNodeEntry,
    cred1: CredentialFacts,
    req1: EscrowRequest,
    t0: u64,
    cred2: CredentialFacts,
    req2: EscrowRequest,
)
    requires
        deposit_decision(admin, node, cred1, req1) == Ok::<(), RewardError>(()),
    ensures
        deposit_decision(admin, deposit_applied(node, t0), cred2, req2) == Err::<
            (),
            RewardError,
        >(RewardError::DepositAlreadyMade),
{
}

/// Admin handover safety: once a handover to `candidate` is requested, no
/// other identity can accept it; the candidate can accept it exactly once,
/// and a second accept is rejected as already accepted.
pub proof fn lemma_admin_handover_safety(
    admin: AdminAccount,
    caller: Pubkey,
    candidate: Pubkey,
    other: Pubkey,
)
    requires
        update_admin_request_decision(admin, caller, candidate) == Ok::<(), RewardError>(()),
        other != candidate,
    ensures
        accept_admin_request_decision(
            (AdminAccount { admin_candidate_pubkey: candidate, ..admin }),
            other,
        ) == Err::<(), RewardError>(RewardError::UnauthorizedAdmin),
        accept_admin_request_decision(
            (AdminAccount { admin_candidate_pubkey: candidate, ..admin }),
            candidate,
        ) == Ok::<(), RewardError>(()),
        accept_admin_request_decision(
            (AdminAccount { admin_pubkey: candidate, admin_candidate_pubkey: candidate, ..admin }),
            candidate,
        ) == Err::<(), RewardError>(RewardError::AlreadyAccepted),
{
}

/// Pause gating: while the system is paused, every reward-affecting
/// operation is rejected as paused, regardless of its other inputs.
pub proof fn lemma_pause_gating(
    admin: AdminAccount,
    node: NfNodeEntry,
    reward: RewardEntry,
    cred: CredentialFacts,
    claim_req: ClaimRequest,
    escrow_req: EscrowRequest,
    now: u64,
)
    requires
        admin.paused,
    ensures
        deposit_decision(admin, node, cred, escrow_req) == Err::<(), RewardError>(
            RewardError::ProgramPaused,
        ),
        withdraw_decision(admin, node, cred, escrow_req, now) == Err::<(), RewardError>(
            RewardError::ProgramPaused,
        ),
        owner_claim_decision(admin, node, reward, cred, claim_req, now) == Err::<(), RewardError>(
            RewardError::ProgramPaused,
        ),
        others_claim_decision(admin, node, reward, cred, claim_req, now) == Err::<(), RewardError>(
            RewardError::ProgramPaused,
        ),
{
}

/// Allow-list bound: when the list already holds the maximum number of
/// authorities, adding one more distinct real authority is rejected as
/// full.
pub proof fn lemma_allow_list_bound(admin: AdminAccount, caller: Pubkey, authority: Pubkey)
    requires
        caller == admin.admin_pubkey,
        !authority.is_zero(),
        admin.mint_authorities@.len() >= MAX_MINT_AUTHORITIES,
    ensures
        add_mint_authority_decision(admin, caller, authority) == Err::<(), RewardError>(
            RewardError::MintAuthorityListFull,
        ),
{
}

/// Removing an authority that is not on the allow-list is rejected as not
/// found.
pub proof fn lemma_remove_absent_authority(admin: AdminAccount, caller: Pubkey, authority: Pubkey)
    requires
        caller == admin.admin_pubkey,
        !admin.authority_listed(authority),
    ensures
        remove_mint_authority_decision(admin, caller, authority) == Err::<(), RewardError>(
            RewardError::MintAuthorityNotFound,
        ),
{
}

} // verus!

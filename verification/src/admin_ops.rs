//! Operations on the admin singleton: initialization, two-phase
//! administrator handover, pause/unpause, and the minting-authority
//! allow-list.

use vstd::prelude::*;
use crate::pubkey::Pubkey;
use crate::errors::RewardError;
use crate::state::{AdminAccount, MAX_MINT_AUTHORITIES, position_of, contains_key};

verus! {

/// Creates the admin singleton: the deploying caller becomes administrator,
/// the system starts unpaused with no handover pending, `valid_mint` is the
/// recognized collateral asset, and the allow-list starts empty.  The
/// caller must be a real identity.
pub fn initialize_system(caller: Pubkey, valid_mint: Pubkey) -> (r: Result<
    AdminAccount,
    RewardError,
>)
    ensures
        match r {
            Ok(admin) => {
                &&& !caller.is_zero()
                &&& admin.admin_pubkey == caller
                &&& admin.admin_candidate_pubkey.is_zero()
                &&& !admin.paused
                &&& admin.valid_mint == valid_mint
                &&& admin.mint_authorities@ == Seq::<Pubkey>::empty()
                &&& admin.wf()
            },
            Err(e) => caller.is_zero() && e == RewardError::InvalidPubkey,
        },
{
    if caller.id == 0 {
        return Err(RewardError::InvalidPubkey);
    }
    Ok(
        AdminAccount {
            admin_pubkey: caller,
            admin_candidate_pubkey: Pubkey { id: 0 },
            paused: false,
            valid_mint,
            mint_authorities: Vec::new(),
        },
    )
}

/// The decision of a handover request: only the administrator may propose,
/// and the candidate must be a real identity different from both the
/// current administrator and the current candidate.
pub open spec fn update_admin_request_decision(
    admin: AdminAccount,
    caller: Pubkey,
    candidate: Pubkey,
) -> Result<(), RewardError> {
    if caller != admin.admin_pubkey {
        Err(RewardError::UnauthorizedAdmin)
    } else if candidate == admin.admin_pubkey {
        Err(RewardError::SameAdminPubkey)
    } else if candidate == admin.admin_candidate_pubkey {
        Err(RewardError::SameAdminCandidatePubkey)
    } else if candidate.is_zero() {
        Err(RewardError::InvalidPubkey)
    } else {
        Ok(())
    }
}

/// Proposes `candidate` as the next administrator.  The current
/// administrator keeps control until the candidate accepts.
pub fn update_admin_request(admin: &mut AdminAccount, caller: Pubkey, candidate: Pubkey) -> (r:
    Result<(), RewardError>)
    ensures
        match r {
            Ok(()) => {
                &&& update_admin_request_decision(*old(admin), caller, candidate) == Ok::<
                    (),
                    RewardError,
                >(())
                &&& *final(admin) == (AdminAccount {
                    admin_candidate_pubkey: candidate,
                    ..*old(admin)
                })
            },
            Err(e) => {
                &&& update_admin_request_decision(*old(admin), caller, candidate) == Err::<
                    (),
                    RewardError,
                >(e)
                &&& *final(admin) == *old(admin)
            },
        },
        old(admin).wf() ==> final(admin).wf(),
{
    if caller != admin.admin_pubkey {
        return Err(RewardError::UnauthorizedAdmin);
    }
    if candidate == admin.admin_pubkey {
        return Err(RewardError::SameAdminPubkey);
    }
    if candidate == admin.admin_candidate_pubkey {
        return Err(RewardError::SameAdminCandidatePubkey);
    }
    if candidate.id == 0 {
        return Err(RewardError::InvalidPubkey);
    }
    admin.admin_candidate_pubkey = candidate;
    Ok(())
}

/// The decision of accepting a handover: only the pending candidate may
/// accept, there must be a handover pending, and a handover already
/// accepted cannot be accepted again.
pub open spec fn accept_admin_request_decision(admin: AdminAccount, caller: Pubkey) -> Result<
    (),
    RewardError,
> {
    if admin.admin_candidate_pubkey.is_zero() {
        Err(RewardError::UnauthorizedAdmin)
    } else if caller != admin.admin_candidate_pubkey {
        Err(RewardError::UnauthorizedAdmin)
    } else if admin.admin_pubkey == admin.admin_candidate_pubkey {
        Err(RewardError::AlreadyAccepted)
    } else {
        Ok(())
    }
}

/// Completes a pending handover: the candidate becomes administrator.
pub fn accept_admin_request(admin: &mut AdminAccount, caller: Pubkey) -> (r: Result<
    (),
    RewardError,
>)
    ensures
        match r {
            Ok(()) => {
                &&& accept_admin_request_decision(*old(admin), caller) == Ok::<(), RewardError>(())
                &&& *final(admin) == (AdminAccount {
                    admin_pubkey: old(admin).admin_candidate_pubkey,
                    ..*old(admin)
                })
            },
            Err(e) => {
                &&& accept_admin_request_decision(*old(admin), caller) == Err::<(), RewardError>(e)
                &&& *final(admin) == *old(admin)
            },
        },
        old(admin).wf() ==> final(admin).wf(),
{
    if admin.admin_candidate_pubkey.id == 0 {
        return Err(RewardError::UnauthorizedAdmin);
    }
    if caller != admin.admin_candidate_pubkey {
        return Err(RewardError::UnauthorizedAdmin);
    }
    if admin.admin_pubkey == admin.admin_candidate_pubkey {
        return Err(RewardError::AlreadyAccepted);
    }
    admin.admin_pubkey = admin.admin_candidate_pubkey;
    Ok(())
}

/// The decision of a pause request: admin-only, and pausing an
/// already-paused system is refused.
pub open spec fn pause_program_decision(admin: AdminAccount, caller: Pubkey) -> Result<
    (),
    RewardError,
> {
    if caller != admin.admin_pubkey {
        Err(RewardError::UnauthorizedAdmin)
    } else if admin.paused {
        Err(RewardError::AlreadyPaused)
    } else {
        Ok(())
    }
}

/// Pauses the system; every reward-affecting operation is rejected while
/// paused.
pub fn pause_program(admin: &mut AdminAccount, caller: Pubkey) -> (r: Result<(), RewardError>)
    ensures
        match r {
            Ok(()) => {
                &&& pause_program_decision(*old(admin), caller) == Ok::<(), RewardError>(())
                &&& *final(admin) == (AdminAccount { paused: true, ..*old(admin) })
            },
            Err(e) => {
                &&& pause_program_decision(*old(admin), caller) == Err::<(), RewardError>(e)
                &&& *final(admin) == *old(admin)
            },
        },
        old(admin).wf() ==> final(admin).wf(),
{
    if caller != admin.admin_pubkey {
        return Err(RewardError::UnauthorizedAdmin);
    }
    if admin.paused {
        return Err(RewardError::AlreadyPaused);
    }
    admin.paused = true;
    Ok(())
}

/// The decision of an unpause request: admin-only, and unpausing a running
/// system is refused.
pub open spec fn unpause_program_decision(admin: AdminAccount, caller: Pubkey) -> Result<
    (),
    RewardError,
> {
    if caller != admin.admin_pubkey {
        Err(RewardError::UnauthorizedAdmin)
    } else if !admin.paused {
        Err(RewardError::AlreadyRunning)
    } else {
        Ok(())
    }
}

/// Resumes a paused system.
pub fn unpause_program(admin: &mut AdminAccount, caller: Pubkey) -> (r: Result<(), RewardError>)
    ensures
        match r {
            Ok(()) => {
                &&& unpause_program_decision(*old(admin), caller) == Ok::<(), RewardError>(())
                &&& *final(admin) == (AdminAccount { paused: false, ..*old(admin) })
            },
            Err(e) => {
                &&& unpause_program_decision(*old(admin), caller) == Err::<(), RewardError>(e)
                &&& *final(admin) == *old(admin)
            },
        },
        old(admin).wf() ==> final(admin).wf(),
{
    if caller != admin.admin_pubkey {
        return Err(RewardError::UnauthorizedAdmin);
    }
    if !admin.paused {
        return Err(RewardError::AlreadyRunning);
    }
    admin.paused = false;
    Ok(())
}

/// The decision of adding a minting authority: admin-only; the authority
/// must be a real identity, the list must have room, and duplicates are
/// refused.
pub open spec fn add_mint_authority_decision(
    admin: AdminAccount,
    caller: Pubkey,
    authority: Pubkey,
) -> Result<(), RewardError> {
    if caller != admin.admin_pubkey {
        Err(RewardError::UnauthorizedAdmin)
    } else if authority.is_zero() {
        Err(RewardError::InvalidPubkey)
    } else if admin.mint_authorities@.len() >= MAX_MINT_AUTHORITIES {
        Err(RewardError::MintAuthorityListFull)
    } else if admin.authority_listed(authority) {
        Err(RewardError::MintAuthorityAlreadyExists)
    } else {
        Ok(())
    }
}

/// Adds a minting authority to the allow-list.
pub fn add_mint_authority(admin: &mut AdminAccount, caller: Pubkey, authority: Pubkey) -> (r:
    Result<(), RewardError>)
    ensures
        match r {
            Ok(()) => {
                &&& add_mint_authority_decision(*old(admin), caller, authority) == Ok::<
                    (),
                    RewardError,
                >(())
                &&& final(admin).mint_authorities@ == old(admin).mint_authorities@.push(authority)
                &&& final(admin).authority_listed(authority)
                &&& final(admin).admin_pubkey == old(admin).admin_pubkey
                &&& final(admin).admin_candidate_pubkey == old(admin).admin_candidate_pubkey
                &&& final(admin).paused == old(admin).paused
                &&& final(admin).valid_mint == old(admin).valid_mint
            },
            Err(e) => {
                &&& add_mint_authority_decision(*old(admin), caller, authority) == Err::<
                    (),
                    RewardError,
                >(e)
                &&& *final(admin) == *old(admin)
            },
        },
        old(admin).wf() ==> final(admin).wf(),
{
    if caller != admin.admin_pubkey {
        return Err(RewardError::UnauthorizedAdmin);
    }
    if authority.id == 0 {
        return Err(RewardError::InvalidPubkey);
    }
    if admin.mint_authorities.len() >= MAX_MINT_AUTHORITIES {
        return Err(RewardError::MintAuthorityListFull);
    }
    if contains_key(&admin.mint_authorities, authority) {
        return Err(RewardError::MintAuthorityAlreadyExists);
    }
    admin.mint_authorities.push(authority);
    proof {
        let s = old(admin).mint_authorities@;
        assert(admin.mint_authorities@[s.len() as int] == authority);
    }
    Ok(())
}

/// The decision of removing a minting authority: admin-only, and the
/// authority must be present.
pub open spec fn remove_mint_authority_decision(
    admin: AdminAccount,
    caller: Pubkey,
    authority: Pubkey,
) -> Result<(), RewardError> {
    if caller != admin.admin_pubkey {
        Err(RewardError::UnauthorizedAdmin)
    } else if !admin.authority_listed(authority) {
        Err(RewardError::MintAuthorityNotFound)
    } else {
        Ok(())
    }
}

/// Removes a minting authority from the allow-list.  On a well-formed
/// account the list holds no duplicates, so the authority is no longer
/// listed afterwards.
pub fn remove_mint_authority(admin: &mut AdminAccount, caller: Pubkey, authority: Pubkey) -> (r:
    Result<(), RewardError>)
    ensures
        match r {
            Ok(()) => {
                &&& remove_mint_authority_decision(*old(admin), caller, authority) == Ok::<
                    (),
                    RewardError,
                >(())
                &&& exists|i: int|
                    0 <= i < old(admin).mint_authorities@.len() && old(
                        admin,
                    ).mint_authorities@[i] == authority && final(admin).mint_authorities@ == old(
                        admin,
                    ).mint_authorities@.remove(i)
                &&& final(admin).mint_authorities@.len() == old(
                    admin,
                ).mint_authorities@.len() - 1
                &&& (old(admin).wf() ==> !final(admin).authority_listed(authority))
                &&& final(admin).admin_pubkey == old(admin).admin_pubkey
                &&& final(admin).admin_candidate_pubkey == old(admin).admin_candidate_pubkey
                &&& final(admin).paused == old(admin).paused
                &&& final(admin).valid_mint == old(admin).valid_mint
            },
            Err(e) => {
                &&& remove_mint_authority_decision(*old(admin), caller, authority) == Err::<
                    (),
                    RewardError,
                >(e)
                &&& *final(admin) == *old(admin)
            },
        },
        old(admin).wf() ==> final(admin).wf(),
{
    if caller != admin.admin_pubkey {
        return Err(RewardError::UnauthorizedAdmin);
    }
    match position_of(&admin.mint_authorities, authority) {
        Some(index) => {
            admin.mint_authorities.remove(index);
            proof {
                let s = old(admin).mint_authorities@;
                let t = admin.mint_authorities@;
                let i = index as int;
                s.remove_ensures(i);
                assert(s.contains(authority));
                if old(admin).wf() {
                    assert forall|j: int| 0 <= j < t.len() implies t[j] != authority by {
                        if j < i {
                            assert(t[j] == s[j]);
                        } else {
                            assert(t[j] == s[j + 1]);
                        }
                    }
                    if t.contains(authority) {
                        let j = choose|j: int| 0 <= j < t.len() && t[j] == authority;
                        assert(t[j] != authority);
                    }
                    assert forall|a: int, b: int| 0 <= a < b < t.len() implies t[a] != t[b] by {
                        if b < i {
                            assert(t[a] == s[a] && t[b] == s[b]);
                        } else if a < i {
                            assert(t[a] == s[a] && t[b] == s[b + 1]);
                        } else {
                            assert(t[a] == s[a + 1] && t[b] == s[b + 1]);
                        }
                    }
                }
            }
            Ok(())
        },
        None => Err(RewardError::MintAuthorityNotFound),
    }
}

} // verus!

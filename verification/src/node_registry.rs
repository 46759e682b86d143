//! Node registration and update.  Both require dual authorization: the
//! transaction is signed by the storage payer and carries an authenticated
//! admin signature, and the registering party must prove it holds the
//! credential.

use vstd::prelude::*;
use crate::pubkey::Pubkey;
use crate::errors::RewardError;
use crate::state::{NfNodeEntry, AdminAccount, NfNodeType};
use crate::credential::{CredentialFacts, node_credential_decision, check_node_credential};

verus! {

/// The decision of a registration request: the first failing predicate, or
/// `Ok`.  `entry_exists` is the allocation collaborator's statement that an
/// entry is already stored for this credential; registration is
/// create-only.
pub open spec fn initialize_nfnode_decision(
    admin: AdminAccount,
    admin_caller: Pubkey,
    admin_signed: bool,
    cred: CredentialFacts,
    entry_exists: bool,
) -> Result<(), RewardError> {
    if entry_exists {
        Err(RewardError::InvalidNfNodeEntry)
    } else if admin_caller != admin.admin_pubkey {
        Err(RewardError::UnauthorizedAdmin)
    } else if !admin_signed {
        Err(RewardError::MissingAdminSignature)
    } else {
        node_credential_decision(cred)
    }
}

/// The entry a successful registration stores: attribution and share as
/// requested, every claim timestamp and counter zero, no deposit.
pub open spec fn fresh_node_entry(
    host: Pubkey,
    manufacturer: Pubkey,
    host_share: u64,
    nfnode_type: NfNodeType,
) -> NfNodeEntry {
    NfNodeEntry {
        owner_last_claimed_timestamp: 0,
        host,
        host_share,
        host_last_claimed_timestamp: 0,
        manufacturer,
        manufacturer_last_claimed_timestamp: 0,
        total_rewards_claimed: 0,
        deposit_amount: 0,
        deposit_timestamp: 0,
        nfnode_type,
    }
}

/// Registers a node credential: on success returns the fresh entry for the
/// allocation collaborator to store.
pub fn initialize_nfnode(
    admin: &AdminAccount,
    admin_caller: Pubkey,
    admin_signed: bool,
    cred: &CredentialFacts,
    entry_exists: bool,
    host: Pubkey,
    manufacturer: Pubkey,
    host_share: u64,
    nfnode_type: NfNodeType,
) -> (r: Result<NfNodeEntry, RewardError>)
    ensures
        match r {
            Ok(entry) => {
                &&& initialize_nfnode_decision(*admin, admin_caller, admin_signed, *cred, entry_exists)
                    == Ok::<(), RewardError>(())
                &&& entry == fresh_node_entry(host, manufacturer, host_share, nfnode_type)
                &&& entry.wf()
            },
            Err(e) => initialize_nfnode_decision(*admin, admin_caller, admin_signed, *cred, entry_exists)
                == Err::<(), RewardError>(e),
        },
{
    if entry_exists {
        return Err(RewardError::InvalidNfNodeEntry);
    }
    if admin_caller != admin.admin_pubkey {
        return Err(RewardError::UnauthorizedAdmin);
    }
    if !admin_signed {
        return Err(RewardError::MissingAdminSignature);
    }
    match check_node_credential(cred) {
        Ok(()) => {},
        Err(e) => {
            return Err(e);
        },
    }
    Ok(NfNodeEntry {
        owner_last_claimed_timestamp: 0,
        host,
        host_share,
        host_last_claimed_timestamp: 0,
        manufacturer,
        manufacturer_last_claimed_timestamp: 0,
        total_rewards_claimed: 0,
        deposit_amount: 0,
        deposit_timestamp: 0,
        nfnode_type,
    })
}

/// The decision of an update request; it shares the registration's
/// authorization and ownership checks.
pub open spec fn update_nfnode_decision(
    admin: AdminAccount,
    admin_caller: Pubkey,
    admin_signed: bool,
    cred: CredentialFacts,
) -> Result<(), RewardError> {
    if admin_caller != admin.admin_pubkey {
        Err(RewardError::UnauthorizedAdmin)
    } else if !admin_signed {
        Err(RewardError::MissingAdminSignature)
    } else {
        node_credential_decision(cred)
    }
}

/// Updates a node's host attribution and revenue share; nothing else
/// changes.
pub fn update_nfnode(
    admin: &AdminAccount,
    node: &mut NfNodeEntry,
    admin_caller: Pubkey,
    admin_signed: bool,
    cred: &CredentialFacts,
    host: Pubkey,
    host_share: u64,
) -> (r: Result<(), RewardError>)
    ensures
        match r {
            Ok(()) => {
                &&& update_nfnode_decision(*admin, admin_caller, admin_signed, *cred) == Ok::<
                    (),
                    RewardError,
                >(())
                &&& *final(node) == (NfNodeEntry { host, host_share, ..*old(node) })
            },
            Err(e) => {
                &&& update_nfnode_decision(*admin, admin_caller, admin_signed, *cred) == Err::<
                    (),
                    RewardError,
                >(e)
                &&& *final(node) == *old(node)
            },
        },
        old(node).wf() ==> final(node).wf(),
{
    if admin_caller != admin.admin_pubkey {
        return Err(RewardError::UnauthorizedAdmin);
    }
    if !admin_signed {
        return Err(RewardError::MissingAdminSignature);
    }
    match check_node_credential(cred) {
        Ok(()) => {},
        Err(e) => {
            return Err(e);
        },
    }
    node.host = host;
    node.host_share = host_share;
    Ok(())
}

} // verus!

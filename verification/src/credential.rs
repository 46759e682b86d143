//! Facts about a presented node credential, as the ledger shows them at
//! request time, and the checks the validators run over them.
//!
//! The ledger loads the credential's mint record and the claimant's balance
//! holder, and the derivation collaborator computes the expected sub-account
//! address; the validators receive all of it as plain values here and only
//! compare.

use vstd::prelude::*;
use crate::pubkey::Pubkey;
use crate::errors::RewardError;
use crate::state::AdminAccount;

verus! {

/// What the ledger shows of one presented credential.
#[derive(Clone, Copy, Debug)]
pub struct CredentialFacts {
    /// Identity of the node credential (its mint).
    pub mint: Pubkey,
    /// Total supply recorded on the mint; a genuine credential has exactly 1.
    pub supply: u64,
    /// Fractional precision recorded on the mint; a genuine credential has 0.
    pub decimals: u8,
    /// The minting authority recorded on the mint, if any.
    pub mint_authority: Option<Pubkey>,
    /// The balance holder the claimant presented.
    pub holder_account: Pubkey,
    /// The program that owns the presented balance holder.
    pub holder_owner_program: Pubkey,
    /// Balance of the credential held in the presented holder.
    pub holder_balance: u64,
    /// The asset identity recorded on the presented holder.
    pub holder_asset: Pubkey,
    /// The holder address the derivation collaborator computed for
    /// (claimant, credential).
    pub derived_holder_account: Pubkey,
    /// The token program expected to own the presented holder.
    pub token_program: Pubkey,
}

impl CredentialFacts {
    /// The recorded minting authority exists and is on the allow-list.
    pub open spec fn authority_allowed(self, admin: AdminAccount) -> bool {
        self.mint_authority matches Some(a) && admin.authority_listed(a)
    }
}

/// Ownership checks shared by node registration and update: the presented
/// holder is owned by the expected token program, holds a non-zero balance,
/// and that balance is in the named credential.
pub open spec fn node_credential_decision(cred: CredentialFacts) -> Result<(), RewardError> {
    if cred.holder_owner_program != cred.token_program {
        Err(RewardError::InvalidNftMint)
    } else if cred.holder_balance == 0 {
        Err(RewardError::InsufficientNftBalance)
    } else if cred.holder_asset != cred.mint {
        Err(RewardError::InvalidNftMint)
    } else {
        Ok(())
    }
}

/// Checks run by the claim validators: the ownership checks, plus the
/// presented holder being the derived sub-account, plus the allow-list
/// check on the minting authority.
pub open spec fn claim_credential_decision(cred: CredentialFacts, admin: AdminAccount) -> Result<
    (),
    RewardError,
> {
    if cred.holder_owner_program != cred.token_program {
        Err(RewardError::InvalidNftMint)
    } else if cred.derived_holder_account != cred.holder_account {
        Err(RewardError::InvalidNftTokenAccount)
    } else if cred.holder_balance == 0 {
        Err(RewardError::InsufficientNftBalance)
    } else if cred.holder_asset != cred.mint {
        Err(RewardError::InvalidNftMint)
    } else if !cred.authority_allowed(admin) {
        Err(RewardError::UnauthorizedMintAuthority)
    } else {
        Ok(())
    }
}

/// Checks run by deposit and withdraw: the claim checks plus the uniqueness
/// invariants of a non-fungible credential (supply exactly 1, precision 0).
pub open spec fn escrow_credential_decision(cred: CredentialFacts, admin: AdminAccount) -> Result<
    (),
    RewardError,
> {
    if cred.holder_owner_program != cred.token_program {
        Err(RewardError::InvalidNftMint)
    } else if cred.supply != 1 {
        Err(RewardError::InvalidNftSupply)
    } else if cred.decimals != 0 {
        Err(RewardError::InvalidNftDecimals)
    } else if cred.derived_holder_account != cred.holder_account {
        Err(RewardError::InvalidNftTokenAccount)
    } else if cred.holder_balance == 0 {
        Err(RewardError::InsufficientNftBalance)
    } else if cred.holder_asset != cred.mint {
        Err(RewardError::InvalidNftMint)
    } else if !cred.authority_allowed(admin) {
        Err(RewardError::UnauthorizedMintAuthority)
    } else {
        Ok(())
    }
}

/// Runs the ownership checks of `node_credential_decision`.
pub fn check_node_credential(cred: &CredentialFacts) -> (r: Result<(), RewardError>)
    ensures
        r == node_credential_decision(*cred),
{
    if cred.holder_owner_program != cred.token_program {
        Err(RewardError::InvalidNftMint)
    } else if cred.holder_balance == 0 {
        Err(RewardError::InsufficientNftBalance)
    } else if cred.holder_asset != cred.mint {
        Err(RewardError::InvalidNftMint)
    } else {
        Ok(())
    }
}

/// Runs the checks of `claim_credential_decision`.
pub fn check_claim_credential(cred: &CredentialFacts, admin: &AdminAccount) -> (r: Result<
    (),
    RewardError,
>)
    ensures
        r == claim_credential_decision(*cred, *admin),
{
    if cred.holder_owner_program != cred.token_program {
        Err(RewardError::InvalidNftMint)
    } else if cred.derived_holder_account != cred.holder_account {
        Err(RewardError::InvalidNftTokenAccount)
    } else if cred.holder_balance == 0 {
        Err(RewardError::InsufficientNftBalance)
    } else if cred.holder_asset != cred.mint {
        Err(RewardError::InvalidNftMint)
    } else {
        match cred.mint_authority {
            Some(a) => {
                if crate::state::contains_key(&admin.mint_authorities, a) {
                    Ok(())
                } else {
                    Err(RewardError::UnauthorizedMintAuthority)
                }
            },
            None => Err(RewardError::UnauthorizedMintAuthority),
        }
    }
}

/// Runs the checks of `escrow_credential_decision`.
pub fn check_escrow_credential(cred: &CredentialFacts, admin: &AdminAccount) -> (r: Result<
    (),
    RewardError,
>)
    ensures
        r == escrow_credential_decision(*cred, *admin),
{
    if cred.holder_owner_program != cred.token_program {
        Err(RewardError::InvalidNftMint)
    } else if cred.supply != 1 {
        Err(RewardError::InvalidNftSupply)
    } else if cred.decimals != 0 {
        Err(RewardError::InvalidNftDecimals)
    } else if cred.derived_holder_account != cred.holder_account {
        Err(RewardError::InvalidNftTokenAccount)
    } else if cred.holder_balance == 0 {
        Err(RewardError::InsufficientNftBalance)
    } else if cred.holder_asset != cred.mint {
        Err(RewardError::InvalidNftMint)
    } else {
        match cred.mint_authority {
            Some(a) => {
                if crate::state::contains_key(&admin.mint_authorities, a) {
                    Ok(())
                } else {
                    Err(RewardError::UnauthorizedMintAuthority)
                }
            },
            None => Err(RewardError::UnauthorizedMintAuthority),
        }
    }
}

} // verus!

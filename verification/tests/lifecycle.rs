//! One full pass through the state machine: initialization, allow-list
//! setup, node registration, collateral deposit, claims, and the eventual
//! withdraw after the lock expires.

use nfnode_rewards::admin_ops::{add_mint_authority, initialize_system};
use nfnode_rewards::claims::{owner_claim_rewards, ClaimRequest};
use nfnode_rewards::credential::CredentialFacts;
use nfnode_rewards::errors::RewardError;
use nfnode_rewards::escrow::{deposit_tokens, withdraw_tokens, EscrowRequest};
use nfnode_rewards::node_registry::initialize_nfnode;
use nfnode_rewards::pubkey::Pubkey;
use nfnode_rewards::state::{NfNodeType, RewardEntry, DEPOSIT_AMOUNT, SECONDS_PER_DAY};

fn key(id: u64) -> Pubkey {
    Pubkey { id }
}

fn credential() -> CredentialFacts {
    CredentialFacts {
        mint: key(20),
        supply: 1,
        decimals: 0,
        mint_authority: Some(key(5)),
        holder_account: key(30),
        holder_owner_program: key(40),
        holder_balance: 1,
        holder_asset: key(20),
        derived_holder_account: key(30),
        token_program: key(40),
    }
}

#[test]
fn full_node_lifecycle() {
    let mut admin = initialize_system(key(7), key(9)).unwrap();
    add_mint_authority(&mut admin, key(7), key(5)).unwrap();
    let cred = credential();

    let mut node =
        initialize_nfnode(&admin, key(7), true, &cred, false, key(8), key(6), 40, NfNodeType::BYOD)
            .unwrap();
    let mut reward = RewardEntry::new();

    // A claim before the collateral is locked is refused.
    let claim = ClaimRequest {
        admin_caller: key(7),
        admin_signed: true,
        claimant: key(60),
        reward_amount: 100,
        nonce: 1,
        pool_account: key(50),
        pool_authority: key(51),
        recipient_account: key(52),
    };
    let t0 = 100 * SECONDS_PER_DAY;
    let r = owner_claim_rewards(&admin, &mut node, &mut reward, &cred, &claim, t0);
    assert_eq!(r, Err(RewardError::DepositRequired));

    // Lock the collateral.
    let escrow = EscrowRequest {
        depositor: key(60),
        asset_class: key(9),
        depositor_account: key(61),
        escrow_account: key(62),
        escrow_authority: key(63),
    };
    let deposit = deposit_tokens(&admin, &mut node, &cred, &escrow, t0).unwrap();
    assert_eq!(deposit.amount, DEPOSIT_AMOUNT);

    // Claims on two consecutive days, with increasing nonces.
    let t1 = t0 + SECONDS_PER_DAY;
    owner_claim_rewards(&admin, &mut node, &mut reward, &cred, &claim, t1).unwrap();
    let mut claim2 = claim;
    claim2.nonce = 2;
    claim2.reward_amount = 40;
    let t2 = t1 + SECONDS_PER_DAY;
    owner_claim_rewards(&admin, &mut node, &mut reward, &cred, &claim2, t2).unwrap();
    assert_eq!(node.total_rewards_claimed, 140);
    assert_eq!(reward.total_rewards_earned, 140);
    assert_eq!(reward.last_claimed_nonce, 2);

    // The lock still runs from the deposit, not from the claims.
    let early = t0 + 30 * SECONDS_PER_DAY;
    let r = withdraw_tokens(&admin, &mut node, &cred, &escrow, early);
    assert_eq!(r, Err(RewardError::WithdrawTooEarly));

    let late = t0 + 31 * SECONDS_PER_DAY;
    let refund = withdraw_tokens(&admin, &mut node, &cred, &escrow, late).unwrap();
    assert_eq!(refund.amount, DEPOSIT_AMOUNT);
    assert_eq!(node.deposit_amount, 0);

    // With the collateral gone, claiming is again refused.
    let mut claim3 = claim;
    claim3.nonce = 3;
    let t3 = late + SECONDS_PER_DAY;
    let r = owner_claim_rewards(&admin, &mut node, &mut reward, &cred, &claim3, t3);
    assert_eq!(r, Err(RewardError::DepositRequired));
}

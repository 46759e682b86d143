use nfnode_rewards::credential::CredentialFacts;
use nfnode_rewards::errors::RewardError;
use nfnode_rewards::escrow::{deposit_tokens, withdraw_tokens, EscrowRequest};
use nfnode_rewards::pubkey::Pubkey;
use nfnode_rewards::state::{AdminAccount, NfNodeEntry, NfNodeType, DEPOSIT_AMOUNT, SECONDS_PER_DAY};
use nfnode_rewards::transfer::TransferInstruction;

fn key(id: u64) -> Pubkey {
    Pubkey { id }
}

fn admin() -> AdminAccount {
    AdminAccount {
        admin_pubkey: key(7),
        admin_candidate_pubkey: key(0),
        paused: false,
        valid_mint: key(9),
        mint_authorities: vec![key(5)],
    }
}

fn node(node_type: NfNodeType) -> NfNodeEntry {
    NfNodeEntry {
        owner_last_claimed_timestamp: 0,
        host: key(8),
        host_share: 40,
        host_last_claimed_timestamp: 0,
        manufacturer: key(6),
        manufacturer_last_claimed_timestamp: 0,
        total_rewards_claimed: 0,
        deposit_amount: 0,
        deposit_timestamp: 0,
        nfnode_type: node_type,
    }
}

fn credential() -> CredentialFacts {
    CredentialFacts {
        mint: key(20),
        supply: 1,
        decimals: 0,
        mint_authority: Some(key(5)),
        holder_account: key(30),
        holder_owner_program: key(40),
        holder_balance: 1,
        holder_asset: key(20),
        derived_holder_account: key(30),
        token_program: key(40),
    }
}

fn request() -> EscrowRequest {
    EscrowRequest {
        depositor: key(60),
        asset_class: key(9),
        depositor_account: key(61),
        escrow_account: key(62),
        escrow_authority: key(63),
    }
}

#[test]
fn deposit_records_collateral_and_emits_transfer() {
    let admin = admin();
    let mut node = node(NfNodeType::BYOD);
    let t0 = 1_000 * SECONDS_PER_DAY + 17;
    let transfer = deposit_tokens(&admin, &mut node, &credential(), &request(), t0).unwrap();
    assert_eq!(node.deposit_amount, DEPOSIT_AMOUNT);
    assert_eq!(node.deposit_timestamp, t0);
    assert_eq!(
        transfer,
        TransferInstruction {
            from: key(61),
            to: key(62),
            authority: key(60),
            amount: DEPOSIT_AMOUNT,
        }
    );
}

#[test]
fn deposit_rejected_while_paused() {
    let mut admin = admin();
    admin.paused = true;
    let mut node = node(NfNodeType::BYOD);
    let r = deposit_tokens(&admin, &mut node, &credential(), &request(), 0);
    assert_eq!(r, Err(RewardError::ProgramPaused));
    assert_eq!(node.deposit_amount, 0);
}

#[test]
fn second_deposit_rejected() {
    let admin = admin();
    let mut node = node(NfNodeType::BYOD);
    deposit_tokens(&admin, &mut node, &credential(), &request(), 100).unwrap();
    let r = deposit_tokens(&admin, &mut node, &credential(), &request(), 200);
    assert_eq!(r, Err(RewardError::DepositAlreadyMade));
    assert_eq!(node.deposit_timestamp, 100);
}

#[test]
fn deposit_rejects_unrecognized_asset_class() {
    let admin = admin();
    let mut node = node(NfNodeType::BYOD);
    let mut req = request();
    req.asset_class = key(10);
    assert_eq!(
        deposit_tokens(&admin, &mut node, &credential(), &req, 0),
        Err(RewardError::InvalidMint)
    );
}

#[test]
fn deposit_rejects_foreign_holder_program() {
    let admin = admin();
    let mut node = node(NfNodeType::BYOD);
    let mut cred = credential();
    cred.holder_owner_program = key(41);
    assert_eq!(
        deposit_tokens(&admin, &mut node, &cred, &request(), 0),
        Err(RewardError::InvalidNftMint)
    );
}

#[test]
fn deposit_rejects_nonunique_supply() {
    let admin = admin();
    let mut node = node(NfNodeType::BYOD);
    let mut cred = credential();
    cred.supply = 2;
    assert_eq!(
        deposit_tokens(&admin, &mut node, &cred, &request(), 0),
        Err(RewardError::InvalidNftSupply)
    );
}

#[test]
fn deposit_rejects_fractional_precision() {
    let admin = admin();
    let mut node = node(NfNodeType::BYOD);
    let mut cred = credential();
    cred.decimals = 1;
    assert_eq!(
        deposit_tokens(&admin, &mut node, &cred, &request(), 0),
        Err(RewardError::InvalidNftDecimals)
    );
}

#[test]
fn deposit_rejects_underived_holder() {
    let admin = admin();
    let mut node = node(NfNodeType::BYOD);
    let mut cred = credential();
    cred.derived_holder_account = key(31);
    assert_eq!(
        deposit_tokens(&admin, &mut node, &cred, &request(), 0),
        Err(RewardError::InvalidNftTokenAccount)
    );
}

#[test]
fn deposit_rejects_empty_balance() {
    let admin = admin();
    let mut node = node(NfNodeType::BYOD);
    let mut cred = credential();
    cred.holder_balance = 0;
    assert_eq!(
        deposit_tokens(&admin, &mut node, &cred, &request(), 0),
        Err(RewardError::InsufficientNftBalance)
    );
}

#[test]
fn deposit_rejects_mismatched_holder_asset() {
    let admin = admin();
    let mut node = node(NfNodeType::BYOD);
    let mut cred = credential();
    cred.holder_asset = key(21);
    assert_eq!(
        deposit_tokens(&admin, &mut node, &cred, &request(), 0),
        Err(RewardError::InvalidNftMint)
    );
}

#[test]
fn deposit_rejects_unlisted_mint_authority() {
    let admin = admin();
    let mut node = node(NfNodeType::BYOD);
    let mut cred = credential();
    cred.mint_authority = Some(key(55));
    assert_eq!(
        deposit_tokens(&admin, &mut node, &cred, &request(), 0),
        Err(RewardError::UnauthorizedMintAuthority)
    );
    cred.mint_authority = None;
    assert_eq!(
        deposit_tokens(&admin, &mut node, &cred, &request(), 0),
        Err(RewardError::UnauthorizedMintAuthority)
    );
}

#[test]
fn withdraw_without_deposit_rejected() {
    let admin = admin();
    let mut node = node(NfNodeType::BYOD);
    assert_eq!(
        withdraw_tokens(&admin, &mut node, &credential(), &request(), 0),
        Err(RewardError::WithdrawAlreadyMade)
    );
}

#[test]
fn withdraw_rejected_while_paused() {
    let mut admin = admin();
    let mut node = node(NfNodeType::BYOD);
    deposit_tokens(&admin, &mut node, &credential(), &request(), 0).unwrap();
    admin.paused = true;
    assert_eq!(
        withdraw_tokens(&admin, &mut node, &credential(), &request(), 40 * SECONDS_PER_DAY),
        Err(RewardError::ProgramPaused)
    );
}

#[test]
fn withdraw_too_early_at_day_29() {
    let admin = admin();
    let mut node = node(NfNodeType::BYOD);
    let t0 = 100 * SECONDS_PER_DAY;
    deposit_tokens(&admin, &mut node, &credential(), &request(), t0).unwrap();
    let t1 = t0 + 29 * SECONDS_PER_DAY;
    assert_eq!(
        withdraw_tokens(&admin, &mut node, &credential(), &request(), t1),
        Err(RewardError::WithdrawTooEarly)
    );
    assert_eq!(node.deposit_amount, DEPOSIT_AMOUNT);
}

#[test]
fn withdraw_too_early_at_day_30() {
    let admin = admin();
    let mut node = node(NfNodeType::BYOD);
    let t0 = 100 * SECONDS_PER_DAY;
    deposit_tokens(&admin, &mut node, &credential(), &request(), t0).unwrap();
    let t1 = t0 + 30 * SECONDS_PER_DAY + SECONDS_PER_DAY - 1;
    assert_eq!(
        withdraw_tokens(&admin, &mut node, &credential(), &request(), t1),
        Err(RewardError::WithdrawTooEarly)
    );
}

#[test]
fn withdraw_after_lock_restores_collateral() {
    let admin = admin();
    let mut node = node(NfNodeType::BYOD);
    let t0 = 100 * SECONDS_PER_DAY;
    deposit_tokens(&admin, &mut node, &credential(), &request(), t0).unwrap();
    let t1 = t0 + 31 * SECONDS_PER_DAY;
    let transfer = withdraw_tokens(&admin, &mut node, &credential(), &request(), t1).unwrap();
    assert_eq!(node.deposit_amount, 0);
    assert_eq!(node.deposit_timestamp, t1);
    assert_eq!(
        transfer,
        TransferInstruction {
            from: key(62),
            to: key(61),
            authority: key(63),
            amount: DEPOSIT_AMOUNT,
        }
    );
}

#[test]
fn withdraw_revalidates_credential() {
    let admin = admin();
    let mut node = node(NfNodeType::BYOD);
    let t0 = 100 * SECONDS_PER_DAY;
    deposit_tokens(&admin, &mut node, &credential(), &request(), t0).unwrap();
    let mut cred = credential();
    cred.mint_authority = Some(key(55));
    let t1 = t0 + 40 * SECONDS_PER_DAY;
    assert_eq!(
        withdraw_tokens(&admin, &mut node, &cred, &request(), t1),
        Err(RewardError::UnauthorizedMintAuthority)
    );
    assert_eq!(node.deposit_amount, DEPOSIT_AMOUNT);
}

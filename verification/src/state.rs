//! Persisted per-entity state: the admin singleton, one entry per node
//! credential, and one claim entry per (claimant, credential) pair.

use vstd::prelude::*;
use crate::pubkey::Pubkey;

verus! {

/// Upper bound on the allow-list of recognized minting authorities.
pub const MAX_MINT_AUTHORITIES: usize = 10;

/// The fixed collateral amount a non-DON node must deposit before claiming.
pub const DEPOSIT_AMOUNT: u64 = 5000000000;

/// Length of one day in epoch seconds; all throttling and lock comparisons
/// work on whole-day indices, not elapsed seconds.
pub const SECONDS_PER_DAY: u64 = 86400;

/// A deposit is released only when the current day index exceeds the
/// deposit's day index by more than this many days.
pub const WITHDRAW_LOCK_DAYS: u64 = 30;

/// The day index of an epoch-second timestamp: `floor(t / 86400)`.
pub open spec fn day_of(t: u64) -> int {
    t as int / (SECONDS_PER_DAY as int)
}

/// Computes the day index of a timestamp.
pub fn day_index(t: u64) -> (d: u64)
    ensures
        d == day_of(t),
{
    t / SECONDS_PER_DAY
}

/// The kind of a registered node; it determines whether collateral is
/// required before rewards may be claimed.
#[derive(Clone, Copy, Debug, PartialEq, Eq, Structural)]
pub enum NfNodeType {
    DON,
    BYOD,
    WayruHotspot,
}

impl NfNodeType {
    /// Every node type except DON must hold the fixed collateral deposit
    /// before a claim is honored.
    pub open spec fn requires_deposit(self) -> bool {
        self !is DON
    }
}

/// Replay-protection and bookkeeping for one (claimant, credential) pair.
/// Created lazily on the first claim with all fields zero.
#[derive(Clone, Copy, Debug, PartialEq, Eq, Structural)]
pub struct RewardEntry {
    pub last_claimed_nonce: u64,
    pub last_claimed_timestamp: u64,
    pub total_rewards_earned: u64,
}

impl RewardEntry {
    /// The state of a pair that has never claimed.
    pub fn new() -> (r: RewardEntry)
        ensures
            r.last_claimed_nonce == 0,
            r.last_claimed_timestamp == 0,
            r.total_rewards_earned == 0,
    {
        RewardEntry { last_claimed_nonce: 0, last_claimed_timestamp: 0, total_rewards_earned: 0 }
    }
}

/// One entry per registered node credential: revenue-share attribution,
/// per-role last-claim timestamps, cumulative rewards, and escrow state.
#[derive(Clone, Copy, Debug, PartialEq, Eq, Structural)]
pub struct NfNodeEntry {
    pub owner_last_claimed_timestamp: u64,
    pub host: Pubkey,
    pub host_share: u64,
    pub host_last_claimed_timestamp: u64,
    pub manufacturer: Pubkey,
    pub manufacturer_last_claimed_timestamp: u64,
    pub total_rewards_claimed: u64,
    pub deposit_amount: u64,
    pub deposit_timestamp: u64,
    pub nfnode_type: NfNodeType,
}

impl NfNodeEntry {
    /// The escrow either holds nothing or exactly the fixed collateral.
    pub open spec fn wf(self) -> bool {
        self.deposit_amount == 0 || self.deposit_amount == DEPOSIT_AMOUNT
    }
}

/// The admin singleton: current and candidate administrator, pause flag,
/// recognized collateral asset class, and the minting-authority allow-list.
#[derive(Debug, PartialEq, Eq)]
pub struct AdminAccount {
    pub admin_pubkey: Pubkey,
    pub admin_candidate_pubkey: Pubkey,
    pub paused: bool,
    pub valid_mint: Pubkey,
    pub mint_authorities: Vec<Pubkey>,
}

impl AdminAccount {
    /// After initialization the administrator is a real identity and the
    /// allow-list holds at most `MAX_MINT_AUTHORITIES` distinct entries.
    pub open spec fn wf(self) -> bool {
        &&& !self.admin_pubkey.is_zero()
        &&& self.mint_authorities@.len() <= MAX_MINT_AUTHORITIES
        &&& forall|i: int, j: int|
            0 <= i < j < self.mint_authorities@.len()
                ==> self.mint_authorities@[i] != self.mint_authorities@[j]
    }

    /// Whether `authority` is on the allow-list of recognized minting
    /// authorities.
    pub open spec fn authority_listed(self, authority: Pubkey) -> bool {
        self.mint_authorities@.contains(authority)
    }
}

/// Linear search of the allow-list; reports the position of the first
/// occurrence of `key`, or `None` when it is absent.
pub fn position_of(keys: &Vec<Pubkey>, key: Pubkey) -> (r: Option<usize>)
    ensures
        match r {
            Some(i) => i < keys@.len() && keys@[i as int] == key,
            None => !keys@.contains(key),
        },
{
    let mut i: usize = 0;
    while i < keys.len()
        invariant
            i <= keys@.len(),
            forall|j: int| 0 <= j < i ==> keys@[j] != key,
        decreases keys@.len() - i,
    {
        if keys[i] == key {
            return Some(i);
        }
        i = i + 1;
    }
    assert(!keys@.contains(key)) by {
        if keys@.contains(key) {
            let j = choose|j: int| 0 <= j < keys@.len() && keys@[j] == key;
            assert(keys@[j] != key);
        }
    }
    None
}

/// Whether `key` occurs in `keys`.
pub fn contains_key(keys: &Vec<Pubkey>, key: Pubkey) -> (r: bool)
    ensures
        r == keys@.contains(key),
{
    match position_of(keys, key) {
        Some(_) => true,
        None => false,
    }
}

} // verus!

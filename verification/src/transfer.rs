//! The instruction a validator emits towards the external transfer
//! subsystem when it accepts a request.  The subsystem executes it
//! atomically or fails the whole request; the core never moves balances
//! itself.

use vstd::prelude::*;
use crate::pubkey::Pubkey;

verus! {

/// Move `amount` units from `from` to `to`, authorized by `authority`.
#[derive(Clone, Copy, Debug, PartialEq, Eq, Structural)]
pub struct TransferInstruction {
    pub from: Pubkey,
    pub to: Pubkey,
    pub authority: Pubkey,
    pub amount: u64,
}

} // verus!

//! Funding the pooled reward escrow that claims are later paid from.

use vstd::prelude::*;
use crate::pubkey::Pubkey;
use crate::errors::RewardError;
use crate::transfer::TransferInstruction;

verus! {

/// Validates a funding request and emits the transfer of `amount` from the
/// funder into the pooled reward escrow.  Only a zero amount is refused.
pub fn fund_token_storage(
    funder: Pubkey,
    funder_account: Pubkey,
    storage_account: Pubkey,
    amount: u64,
) -> (r: Result<TransferInstruction, RewardError>)
    ensures
        match r {
            Ok(t) => {
                &&& amount > 0
                &&& t == (TransferInstruction {
                    from: funder_account,
                    to: storage_account,
                    authority: funder,
                    amount,
                })
            },
            Err(e) => amount == 0 && e == RewardError::InvalidFundingAmount,
        },
{
    if amount == 0 {
        return Err(RewardError::InvalidFundingAmount);
    }
    Ok(TransferInstruction { from: funder_account, to: storage_account, authority: funder, amount })
}

} // verus!

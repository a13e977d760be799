use crate::error::SubscribeError;
use vstd::prelude::*;

verus! {

/// Whether one more credential fits under the supply cap.
pub open spec fn can_issue(total_supply: int, max_supply: int) -> bool {
    total_supply + 1 <= max_supply
}

/// Decides whether one credential may be minted.
///
/// Returns the supply after the mint, or `SupplyCapExceeded` where the
/// cap leaves no room; in that case no mint is to be made and the supply
/// stays as it is.
pub fn issue(total_supply: u64, max_supply: u64) -> (r: Result<u64, SubscribeError>)
    ensures
        can_issue(total_supply as int, max_supply as int) ==> r == Ok::<u64, SubscribeError>(
            (total_supply + 1) as u64,
        ),
        !can_issue(total_supply as int, max_supply as int) ==> r == Err::<u64, SubscribeError>(
            SubscribeError::SupplyCapExceeded,
        ),
{
    if total_supply >= max_supply {
        return Err(SubscribeError::SupplyCapExceeded);
    }
    Ok(total_supply + 1)
}

/// At the cap nothing more is issued.
pub proof fn lemma_full_supply_refuses(max_supply: int)
    ensures
        !can_issue(max_supply, max_supply),
{
}

} // verus!

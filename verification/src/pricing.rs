use vstd::prelude::*;

use crate::error::UsdcBuySellError;

verus! {

/// The fixed price: lamports paid or received for one base unit of the token.
///
/// One token (six decimals) costs a hundredth of a SOL (nine decimals), which
/// is ten lamports for each base unit.
pub const LAMPORTS_PER_USDC_UNIT: u64 = 10;

/// The price of `amount` base units, as a number without bound.
pub open spec fn price(amount: u64) -> int {
    amount * LAMPORTS_PER_USDC_UNIT
}

/// The lamports that `amount` base units of the token cost, and bring back
/// when sold: exactly ten times `amount`, or `MathOverflow` where that does not
/// fit in 64 bits, which is for every `amount` above `u64::MAX / 10`.
pub fn required_lamports(amount: u64) -> (res: Result<u64, UsdcBuySellError>)
    ensures
        amount <= u64::MAX / LAMPORTS_PER_USDC_UNIT ==> res == Ok::<u64, UsdcBuySellError>(
            (amount * 10) as u64,
        ),
        amount > u64::MAX / LAMPORTS_PER_USDC_UNIT ==> res == Err::<u64, UsdcBuySellError>(
            UsdcBuySellError::MathOverflow,
        ),
        res is Ok <==> price(amount) <= u64::MAX,
{
    match amount.checked_mul(LAMPORTS_PER_USDC_UNIT) {
        Some(lamports) => Ok(lamports),
        None => Err(UsdcBuySellError::MathOverflow),
    }
}

} // verus!

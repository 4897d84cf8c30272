use vstd::prelude::*;

verus! {

/// A failure that must abort the hosting transaction in full.
#[derive(PartialEq, Eq, Structural, Clone, Copy, Debug)]
pub enum RewardError {
    /// The product of the base amount and the conversion factor does not fit
    /// the balance width.
    ArithmeticOverflow,
}

/// Converts a base reward amount into the chain's smallest transferable
/// unit: the exact integer product of the amount and the conversion factor,
/// or `ArithmeticOverflow` when that product exceeds the balance width.
pub fn convert(base_amount: u128, factor: u128) -> (r: Result<u128, RewardError>)
    ensures
        base_amount * factor <= u128::MAX ==> r == Ok::<u128, RewardError>(
            (base_amount * factor) as u128,
        ),
        base_amount * factor > u128::MAX ==> r == Err::<u128, RewardError>(
            RewardError::ArithmeticOverflow,
        ),
{
    match base_amount.checked_mul(factor) {
        Some(units) => Ok(units),
        None => Err(RewardError::ArithmeticOverflow),
    }
}

} // verus!

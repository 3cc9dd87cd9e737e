//! Which option contracts can be priced at all.
//!
//! `d1` divides by `volatility * sqrt(time_to_expiry)` and takes the logarithm
//! of `spot / strike`, so a contract is priced only when those four inputs are
//! strictly positive and the rate is a finite number of either sign. The
//! caller classifies each real input by its sign; the rule is decided here.
use vstd::prelude::*;

verus! {

/// The sign of a real-valued input, or that it is no finite number at all.
#[derive(Clone, Copy, Debug, PartialEq, Eq, Structural)]
pub enum Sign {
    Negative,
    Zero,
    Positive,
    NotFinite,
}

/// A contract that cannot be priced.
#[derive(Clone, Copy, Debug, PartialEq, Eq, Structural)]
pub enum ContractError {
    /// Spot, strike, time to expiry or volatility is not strictly positive, or
    /// the rate is not a finite number.
    InvalidInput,
}

/// The inputs of a contract that can be priced.
pub open spec fn priceable(
    spot: Sign,
    strike: Sign,
    time_to_expiry: Sign,
    rate: Sign,
    volatility: Sign,
) -> bool {
    &&& spot is Positive
    &&& strike is Positive
    &&& time_to_expiry is Positive
    &&& rate !is NotFinite
    &&& volatility is Positive
}

/// Accepts the inputs of a contract that can be priced, and refuses any other.
pub fn validate(
    spot: Sign,
    strike: Sign,
    time_to_expiry: Sign,
    rate: Sign,
    volatility: Sign,
) -> (r: Result<(), ContractError>)
    ensures
        r == (if priceable(spot, strike, time_to_expiry, rate, volatility) {
            Ok::<(), ContractError>(())
        } else {
            Err(ContractError::InvalidInput)
        }),
{
    let positive = matches!(spot, Sign::Positive) && matches!(strike, Sign::Positive)
        && matches!(time_to_expiry, Sign::Positive) && matches!(volatility, Sign::Positive);
    if positive && !matches!(rate, Sign::NotFinite) {
        Ok(())
    } else {
        Err(ContractError::InvalidInput)
    }
}

} // verus!

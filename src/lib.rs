//! Black-Scholes option valuation: the verified core.
//!
//! The pricing formulas themselves are floating-point arithmetic; this crate
//! holds the exact, integer-valued logic around them: the kind of a contract,
//! the rule that decides whether a contract can be priced at all, and the
//! bisection that inverts a price into an implied volatility.
pub mod contract;
pub mod ivol;
pub mod types;

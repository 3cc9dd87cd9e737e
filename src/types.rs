use vstd::prelude::*;

verus! {

/// Whether an option gives the right to buy (`Call`) or to sell (`Put`).
#[derive(Clone, Copy, Debug, PartialEq, Eq, Structural)]
pub enum OptionType {
    Call,
    Put,
}

} // verus!

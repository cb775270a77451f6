//! Errors of the economy.

use vstd::prelude::*;

verus! {

/// Why an operation of the economy did nothing.
#[derive(Clone, Copy, Debug, PartialEq, Eq, Structural)]
pub enum EconomyError {
    /// The balance is below the price.
    InsufficientFunds,
    /// No upgrade or generator has that identifier.
    UnknownId,
    /// A count or an amount would leave the range it is held in.
    Overflow,
}

} // verus!

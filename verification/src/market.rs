//! Market kinds.

use vstd::prelude::*;

verus! {

/// The kind of market an instrument trades on. It decides which quantity
/// formula applies to the instrument's trades.
#[derive(Clone, Copy, Debug, PartialEq, Eq, Hash, Structural)]
pub enum MarketKind {
    Spot,
    LinearSwap,
    InverseSwap,
    LinearFuture,
    InverseFuture,
    QuantoSwap,
    QuantoFuture,
    EuropeanOption,
    Unknown,
}

impl MarketKind {
    /// Whether this is the spot market. The spot market trades coins, every
    /// other market trades contracts.
    pub fn is_spot(self) -> (r: bool)
        ensures
            r == (self == MarketKind::Spot),
    {
        match self {
            MarketKind::Spot => true,
            _ => false,
        }
    }
}

} // verus!

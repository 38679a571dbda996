//! Candlesticks.

use crate::amount::{fitted, over, plus, times, Amount, Fraction};
use crate::market::MarketKind;
use crate::quantity::QuantityError;
use vstd::prelude::*;

verus! {

/// The volume of a candlestick, in base coins and in quote coins.
#[derive(Clone, Copy, Debug, PartialEq, Eq)]
pub struct Volumes {
    pub volume: Amount,
    pub quote_volume: Amount,
}

/// The volumes of a candlestick of a swap market, of which the exchange
/// reports `contracts`, a number of contracts, and `quote_volume`. On an
/// inverse swap a contract is a base coin; on a linear swap it is worth
/// `multiplier` base coins. No other market has such candlesticks.
pub open spec fn swap_volumes_of(
    kind: MarketKind,
    contracts: Amount,
    quote_volume: Amount,
    multiplier: Option<Amount>,
) -> Result<Volumes, QuantityError> {
    match kind {
        MarketKind::InverseSwap => Ok(Volumes { volume: contracts, quote_volume }),
        MarketKind::LinearSwap => match multiplier {
            Some(m) => match fitted(times(contracts@, m@)) {
                Some(volume) => Ok(Volumes { volume, quote_volume }),
                None => Err(QuantityError::Overflow),
            },
            None => Err(QuantityError::NoMultiplier),
        },
        _ => Err(QuantityError::NoFormula),
    }
}

/// The volumes of a candlestick of a swap market.
pub fn swap_volumes(
    market_kind: MarketKind,
    contracts: Amount,
    quote_volume: Amount,
    multiplier: Option<Amount>,
) -> (r: Result<Volumes, QuantityError>)
    ensures
        r == swap_volumes_of(market_kind, contracts, quote_volume, multiplier),
{
    match market_kind {
        MarketKind::InverseSwap => Ok(Volumes { volume: contracts, quote_volume }),
        MarketKind::LinearSwap => match multiplier {
            Some(m) => match contracts.times(m) {
                Some(volume) => Ok(Volumes { volume, quote_volume }),
                None => Err(QuantityError::Overflow),
            },
            None => Err(QuantityError::NoMultiplier),
        },
        _ => Err(QuantityError::NoFormula),
    }
}

/// The mean of the four prices of a candlestick, each sum and the quotient
/// taken exactly; `None` where a step does not fit.
pub open spec fn mean_price_of(open: Amount, high: Amount, low: Amount, close: Amount) -> Option<
    Amount,
> {
    match fitted(plus(open@, high@)) {
        Some(two) => match fitted(plus(two@, low@)) {
            Some(three) => match fitted(plus(three@, close@)) {
                Some(four) => fitted(over(four@, Fraction { num: 4, den: 1 })),
                None => None,
            },
            None => None,
        },
        None => None,
    }
}

/// The mean of the four prices of a candlestick.
pub fn mean_price(open: Amount, high: Amount, low: Amount, close: Amount) -> (r: Option<Amount>)
    ensures
        r == mean_price_of(open, high, low, close),
{
    match open.plus(high) {
        Some(two) => match two.plus(low) {
            Some(three) => match three.plus(close) {
                Some(four) => four.over(Amount::whole(4)),
                None => None,
            },
            None => None,
        },
        None => None,
    }
}

} // verus!

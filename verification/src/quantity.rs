//! The quantity formulas.
//!
//! An exchange reports the size of a trade in its own unit. What that unit
//! means depends on the market kind:
//!
//! * on a spot market the size is a number of base coins;
//! * on a linear contract market it is a number of contracts, each worth
//!   `multiplier` base coins;
//! * on an inverse contract market it is a number of contracts, each worth
//!   `multiplier` quote coins, so that the base quantity follows from the
//!   price;
//! * on a quanto contract market the contract settles in a third currency,
//!   and base and quote quantity are those the exchange itself reports.
//!
//! All arithmetic is exact: nothing is rounded.

use crate::amount::{
    fits, fraction_of, lemma_over_times, lemma_times_valid, over, same_value, times, Amount,
    Fraction,
};
use crate::contract_value::registry::{contract_value, ContractSpecRegistry};
use crate::market::MarketKind;
use vstd::prelude::*;

verus! {

/// The formula by which the quantities of a market kind are found.
#[derive(Clone, Copy, Debug, PartialEq, Eq, Hash, Structural)]
pub enum Formula {
    /// The size is the base quantity.
    Spot,
    /// The size counts contracts of `multiplier` base coins.
    Linear,
    /// The size counts contracts of `multiplier` quote coins.
    Inverse,
    /// Base and quote quantity are taken as the exchange reports them.
    Quanto,
}

/// The formula of a market kind, if it has one.
pub open spec fn formula_for(kind: MarketKind) -> Option<Formula> {
    match kind {
        MarketKind::Spot => Some(Formula::Spot),
        MarketKind::LinearSwap | MarketKind::LinearFuture => Some(Formula::Linear),
        MarketKind::InverseSwap | MarketKind::InverseFuture => Some(Formula::Inverse),
        MarketKind::QuantoSwap | MarketKind::QuantoFuture => Some(Formula::Quanto),
        MarketKind::EuropeanOption | MarketKind::Unknown => None,
    }
}

/// The formula of a market kind, if it has one.
pub fn formula_of(kind: MarketKind) -> (r: Option<Formula>)
    ensures
        r == formula_for(kind),
{
    match kind {
        MarketKind::Spot => Some(Formula::Spot),
        MarketKind::LinearSwap | MarketKind::LinearFuture => Some(Formula::Linear),
        MarketKind::InverseSwap | MarketKind::InverseFuture => Some(Formula::Inverse),
        MarketKind::QuantoSwap | MarketKind::QuantoFuture => Some(Formula::Quanto),
        MarketKind::EuropeanOption | MarketKind::Unknown => None,
    }
}

/// The three quantities of a trade, as exact fractions.
pub struct Quantities {
    pub base: Fraction,
    pub quote: Fraction,
    pub contract: Option<Fraction>,
}

/// The three quantities of a trade.
#[derive(Clone, Copy, Debug, PartialEq, Eq)]
pub struct CanonicalQuantity {
    /// The number of base coins.
    pub quantity_base: Amount,
    /// The number of quote coins.
    pub quantity_quote: Amount,
    /// The number of contracts; `None` on a spot market.
    pub quantity_contract: Option<Amount>,
}

impl View for CanonicalQuantity {
    type V = Quantities;

    open spec fn view(&self) -> Quantities {
        Quantities {
            base: self.quantity_base@,
            quote: self.quantity_quote@,
            contract: fraction_of(self.quantity_contract),
        }
    }
}

/// Why no quantities were computed.
#[derive(Clone, Copy, Debug, PartialEq, Eq, Hash, Structural)]
pub enum QuantityError {
    /// The market kind has no formula that works from price and size.
    NoFormula,
    /// The formula needs a multiplier, and none was given.
    NoMultiplier,
    /// A quantity does not fit an [`Amount`].
    Overflow,
}

/// The quantities of a spot trade.
pub open spec fn spot_quantities(price: Fraction, size: Fraction) -> Quantities {
    Quantities { base: size, quote: times(price, size), contract: None }
}

/// The quantities of a trade of `size` linear contracts.
pub open spec fn linear_quantities(
    price: Fraction,
    size: Fraction,
    multiplier: Fraction,
) -> Quantities {
    let base = times(size, multiplier);
    Quantities { base, quote: times(price, base), contract: Some(size) }
}

/// The quantities of a trade of `size` inverse contracts.
pub open spec fn inverse_quantities(
    price: Fraction,
    size: Fraction,
    multiplier: Fraction,
) -> Quantities {
    let quote = times(size, multiplier);
    Quantities { base: over(quote, price), quote, contract: Some(size) }
}

/// The quantities of a trade of `size` quanto contracts, of which the
/// exchange reports `base` and `quote`.
pub open spec fn quanto_quantities(size: Fraction, base: Fraction, quote: Fraction) -> Quantities {
    Quantities { base, quote, contract: Some(size) }
}

/// The exact quantities of a trade, for the kinds whose formula works from
/// price and size.
pub open spec fn exact_quantities(
    kind: MarketKind,
    price: Fraction,
    size: Fraction,
    multiplier: Option<Fraction>,
) -> Result<Quantities, QuantityError> {
    match formula_for(kind) {
        Some(Formula::Spot) => Ok(spot_quantities(price, size)),
        Some(Formula::Linear) => match multiplier {
            Some(m) => Ok(linear_quantities(price, size, m)),
            None => Err(QuantityError::NoMultiplier),
        },
        Some(Formula::Inverse) => match multiplier {
            Some(m) => Ok(inverse_quantities(price, size, m)),
            None => Err(QuantityError::NoMultiplier),
        },
        Some(Formula::Quanto) | None => Err(QuantityError::NoFormula),
    }
}

/// Whether base and quote quantity both fit an [`Amount`].
pub open spec fn quantities_fit(q: Quantities) -> bool {
    fits(q.base) && fits(q.quote)
}

/// What [`compute`] returns: the exact quantities where they fit.
pub open spec fn computed(
    kind: MarketKind,
    price: Fraction,
    size: Fraction,
    multiplier: Option<Fraction>,
) -> Result<Quantities, QuantityError> {
    match exact_quantities(kind, price, size, multiplier) {
        Ok(q) => if quantities_fit(q) {
            Ok(q)
        } else {
            Err(QuantityError::Overflow)
        },
        Err(e) => Err(e),
    }
}

/// The view of a result of [`compute`].
pub open spec fn quantities_of(
    r: Result<CanonicalQuantity, QuantityError>,
) -> Result<Quantities, QuantityError> {
    match r {
        Ok(q) => Ok(q@),
        Err(e) => Err(e),
    }
}

/// Converts the raw size of a trade into base, quote and contract quantity.
///
/// The price is above zero, and so is the multiplier where one is given.
pub fn compute(
    market_kind: MarketKind,
    price: Amount,
    raw_size: Amount,
    multiplier: Option<Amount>,
) -> (r: Result<CanonicalQuantity, QuantityError>)
    requires
        price.positive(),
        raw_size.wf(),
        multiplier matches Some(m) ==> m.positive(),
    ensures
        quantities_of(r) == computed(market_kind, price@, raw_size@, fraction_of(multiplier)),
        r matches Ok(q) ==> q.quantity_base.wf() && q.quantity_quote.wf(),
{
    match formula_of(market_kind) {
        Some(Formula::Spot) => match price.times(raw_size) {
            Some(quote) => Ok(
                CanonicalQuantity {
                    quantity_base: raw_size,
                    quantity_quote: quote,
                    quantity_contract: None,
                },
            ),
            None => Err(QuantityError::Overflow),
        },
        Some(Formula::Linear) => match multiplier {
            Some(m) => match raw_size.times(m) {
                Some(base) => match price.times(base) {
                    Some(quote) => Ok(
                        CanonicalQuantity {
                            quantity_base: base,
                            quantity_quote: quote,
                            quantity_contract: Some(raw_size),
                        },
                    ),
                    None => Err(QuantityError::Overflow),
                },
                None => Err(QuantityError::Overflow),
            },
            None => Err(QuantityError::NoMultiplier),
        },
        Some(Formula::Inverse) => match multiplier {
            Some(m) => match raw_size.times(m) {
                Some(quote) => match quote.over(price) {
                    Some(base) => Ok(
                        CanonicalQuantity {
                            quantity_base: base,
                            quantity_quote: quote,
                            quantity_contract: Some(raw_size),
                        },
                    ),
                    None => Err(QuantityError::Overflow),
                },
                None => Err(QuantityError::Overflow),
            },
            None => Err(QuantityError::NoMultiplier),
        },
        Some(Formula::Quanto) => Err(QuantityError::NoFormula),
        None => Err(QuantityError::NoFormula),
    }
}

/// Converts the raw size of a trade in `pair` on `exchange` into base, quote
/// and contract quantity, with the multiplier that the registry holds for
/// the pair.
///
/// The price is above zero.
pub fn compute_quantities(
    registry: &ContractSpecRegistry,
    exchange: &str,
    market_kind: MarketKind,
    pair: &str,
    price: Amount,
    raw_size: Amount,
) -> (r: Result<CanonicalQuantity, QuantityError>)
    requires
        registry.wf(),
        price.positive(),
        raw_size.wf(),
    ensures
        quantities_of(r) == computed(
            market_kind,
            price@,
            raw_size@,
            fraction_of(contract_value(registry@, exchange@, market_kind, pair@)),
        ),
        r matches Ok(q) ==> q.quantity_base.wf() && q.quantity_quote.wf(),
{
    let multiplier = registry.get(exchange, pair, market_kind);
    compute(market_kind, price, raw_size, multiplier)
}

/// The quantities of a trade on a quanto market: the contract count is the
/// raw size, base and quote quantity are the notional amounts that the
/// exchange reports. Neither is derived from the price.
pub fn compute_quanto(raw_size: Amount, base_notional: Amount, quote_notional: Amount) -> (r:
    CanonicalQuantity)
    ensures
        r@ == quanto_quantities(raw_size@, base_notional@, quote_notional@),
        r.quantity_base == base_notional,
        r.quantity_quote == quote_notional,
        r.quantity_contract == Some(raw_size),
{
    CanonicalQuantity {
        quantity_base: base_notional,
        quantity_quote: quote_notional,
        quantity_contract: Some(raw_size),
    }
}

/// On a spot or linear market the quote quantity is the price times the base
/// quantity, exactly, whatever the price above zero, the size and the
/// multiplier above zero.
pub proof fn lemma_linear_consistency(
    kind: MarketKind,
    price: Fraction,
    size: Fraction,
    multiplier: Option<Fraction>,
)
    requires
        formula_for(kind) == Some(Formula::Spot) || formula_for(kind) == Some(Formula::Linear),
        price.positive(),
        size.valid(),
        multiplier matches Some(m) ==> m.positive(),
        exact_quantities(kind, price, size, multiplier) is Ok,
    ensures
        ({
            let q = exact_quantities(kind, price, size, multiplier)->Ok_0;
            &&& q.quote == times(price, q.base)
            &&& q.base.valid()
            &&& q.quote.valid()
        }),
{
    let q = exact_quantities(kind, price, size, multiplier)->Ok_0;
    if formula_for(kind) == Some(Formula::Linear) {
        lemma_times_valid(size, multiplier.unwrap());
    }
    lemma_times_valid(price, q.base);
}

/// On an inverse market the quote quantity is the size times the multiplier,
/// and the base quantity is the quote quantity over the price, exactly; so
/// the base quantity times the price has the value of the quote quantity.
pub proof fn lemma_inverse_consistency(
    kind: MarketKind,
    price: Fraction,
    size: Fraction,
    multiplier: Fraction,
)
    requires
        formula_for(kind) == Some(Formula::Inverse),
        price.positive(),
        size.valid(),
        multiplier.positive(),
    ensures
        exact_quantities(kind, price, size, Some(multiplier)) is Ok,
        ({
            let q = exact_quantities(kind, price, size, Some(multiplier))->Ok_0;
            &&& q.quote == times(size, multiplier)
            &&& q.base == over(q.quote, price)
            &&& q.base.valid()
            &&& q.quote.valid()
            &&& same_value(times(q.base, price), q.quote)
        }),
{
    let q = exact_quantities(kind, price, size, Some(multiplier))->Ok_0;
    lemma_times_valid(size, multiplier);
    lemma_over_times(q.quote, price);
}

} // verus!

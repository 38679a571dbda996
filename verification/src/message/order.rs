//! The levels of an order book.

use crate::amount::{amount_of, fitted, fraction_of, times, Amount};
use crate::contract_value::registry::{contract_value, ContractSpecRegistry, Tables};
use crate::decimal::{parse_decimal, parsed};
use crate::market::MarketKind;
use crate::message::types::MessageError;
use crate::quantity::{
    compute_quantities, computed, quantities_of, CanonicalQuantity, Quantities, QuantityError,
};
use vstd::prelude::*;

verus! {

/// One level of an order book: a price, and the quantity offered at it.
#[derive(Clone, Copy, Debug, PartialEq, Eq)]
pub struct Order {
    pub price: Amount,
    /// The number of base coins.
    pub quantity_base: Amount,
    /// The number of quote coins.
    pub quantity_quote: Amount,
    /// The number of contracts; `None` on a spot market.
    pub quantity_contract: Option<Amount>,
}

/// The quantities of a level.
pub open spec fn quantities_in(r: Result<Order, QuantityError>) -> Result<
    CanonicalQuantity,
    QuantityError,
> {
    match r {
        Ok(order) => Ok(
            CanonicalQuantity {
                quantity_base: order.quantity_base,
                quantity_quote: order.quantity_quote,
                quantity_contract: order.quantity_contract,
            },
        ),
        Err(e) => Err(e),
    }
}

/// The level of `quantity` base coins at `price`, on a market that counts
/// its sizes in base coins. The quote quantity is the price times the
/// quantity; the quantity is also the number of contracts, except on a spot
/// market.
pub open spec fn plain_order(price: Amount, quantity: Amount, kind: MarketKind) -> Option<Order> {
    match fitted(times(price@, quantity@)) {
        Some(quote) => Some(
            Order {
                price,
                quantity_base: quantity,
                quantity_quote: quote,
                quantity_contract: if kind == MarketKind::Spot {
                    None
                } else {
                    Some(quantity)
                },
            },
        ),
        None => None,
    }
}

/// The level at `price` with these quantities.
pub open spec fn order_with(price: Amount, q: Quantities) -> Order {
    Order {
        price,
        quantity_base: amount_of(q.base),
        quantity_quote: amount_of(q.quote),
        quantity_contract: match q.contract {
            Some(contracts) => Some(amount_of(contracts)),
            None => None,
        },
    }
}

/// The level that two decimal numbers write, price and quantity, on a
/// market that counts its sizes in base coins. On a contract market the
/// price is above zero.
pub open spec fn read_plain_order(price: Seq<char>, quantity: Seq<char>, kind: MarketKind) -> Result<
    Order,
    MessageError,
> {
    match (parsed(price), parsed(quantity)) {
        (Some(p), Some(q)) => if kind != MarketKind::Spot && !p.positive() {
            Err(MessageError::BadField)
        } else {
            match plain_order(p, q, kind) {
                Some(order) => Ok(order),
                None => Err(MessageError::Quantity(QuantityError::Overflow)),
            }
        },
        _ => Err(MessageError::BadField),
    }
}

/// The level of a spot market that three decimal numbers write: price, base
/// quantity and quote quantity.
pub open spec fn read_reported_order(
    price: Seq<char>,
    quantity_base: Seq<char>,
    quantity_quote: Seq<char>,
) -> Result<Order, MessageError> {
    match (parsed(price), parsed(quantity_base), parsed(quantity_quote)) {
        (Some(price), Some(quantity_base), Some(quantity_quote)) => Ok(
            Order { price, quantity_base, quantity_quote, quantity_contract: None },
        ),
        _ => Err(MessageError::BadField),
    }
}

/// The level that two decimal numbers write, price and raw size, with the
/// quantities that the formula of the market kind gives. The price is above
/// zero.
pub open spec fn read_computed_order(
    tables: Tables,
    exchange: Seq<char>,
    kind: MarketKind,
    pair: Seq<char>,
    price: Seq<char>,
    raw_size: Seq<char>,
) -> Result<Order, MessageError> {
    match (parsed(price), parsed(raw_size)) {
        (Some(p), Some(size)) => if !p.positive() {
            Err(MessageError::BadField)
        } else {
            match computed(
                kind,
                p@,
                size@,
                fraction_of(contract_value(tables, exchange, kind, pair)),
            ) {
                Ok(q) => Ok(order_with(p, q)),
                Err(e) => Err(MessageError::Quantity(e)),
            }
        },
        _ => Err(MessageError::BadField),
    }
}

impl Order {
    /// Reads the level that two decimal numbers write, price and quantity,
    /// on a market that counts its sizes in base coins. On a contract market
    /// a price that is not above zero is an error.
    pub fn read_plain(price: &str, quantity: &str, market_kind: MarketKind) -> (r: Result<
        Order,
        MessageError,
    >)
        ensures
            r == read_plain_order(price@, quantity@, market_kind),
    {
        match (parse_decimal(price), parse_decimal(quantity)) {
            (Some(p), Some(q)) => if !market_kind.is_spot() && !p.is_positive() {
                Err(MessageError::BadField)
            } else {
                match Order::plain(p, q, market_kind) {
                    Some(order) => Ok(order),
                    None => Err(MessageError::Quantity(QuantityError::Overflow)),
                }
            },
            _ => Err(MessageError::BadField),
        }
    }

    /// Reads the level of a spot market that three decimal numbers write:
    /// price, base quantity and quote quantity.
    pub fn read_reported(price: &str, quantity_base: &str, quantity_quote: &str) -> (r: Result<
        Order,
        MessageError,
    >)
        ensures
            r == read_reported_order(price@, quantity_base@, quantity_quote@),
    {
        match (
            parse_decimal(price),
            parse_decimal(quantity_base),
            parse_decimal(quantity_quote),
        ) {
            (Some(price), Some(quantity_base), Some(quantity_quote)) => Ok(
                Order::reported(price, quantity_base, quantity_quote),
            ),
            _ => Err(MessageError::BadField),
        }
    }

    /// Reads the level that two decimal numbers write, price and raw size,
    /// with the quantities that the formula of the market kind gives. A price
    /// that is not above zero is an error.
    pub fn read_computed(
        registry: &ContractSpecRegistry,
        exchange: &str,
        market_kind: MarketKind,
        pair: &str,
        price: &str,
        raw_size: &str,
    ) -> (r: Result<Order, MessageError>)
        requires
            registry.wf(),
        ensures
            r == read_computed_order(
                registry@,
                exchange@,
                market_kind,
                pair@,
                price@,
                raw_size@,
            ),
    {
        match (parse_decimal(price), parse_decimal(raw_size)) {
            (Some(p), Some(size)) => if !p.is_positive() {
                Err(MessageError::BadField)
            } else {
                match Order::computed(registry, exchange, market_kind, pair, p, size) {
                    Ok(order) => {
                        assert(order == order_with(
                            p,
                            computed(
                                market_kind,
                                p@,
                                size@,
                                fraction_of(
                                    contract_value(registry@, exchange@, market_kind, pair@),
                                ),
                            )->Ok_0,
                        ));
                        Ok(order)
                    },
                    Err(e) => Err(MessageError::Quantity(e)),
                }
            },
            _ => Err(MessageError::BadField),
        }
    }

    /// The level of `quantity` base coins at `price`, on a market that
    /// counts its sizes in base coins. `None` where the quote quantity does
    /// not fit.
    ///
    /// On a contract market the price is above zero.
    pub fn plain(price: Amount, quantity: Amount, market_kind: MarketKind) -> (r: Option<Order>)
        requires
            market_kind != MarketKind::Spot ==> price.positive(),
        ensures
            r == plain_order(price, quantity, market_kind),
    {
        match price.times(quantity) {
            Some(quote) => Some(
                Order {
                    price,
                    quantity_base: quantity,
                    quantity_quote: quote,
                    quantity_contract: match market_kind {
                        MarketKind::Spot => None,
                        _ => Some(quantity),
                    },
                },
            ),
            None => None,
        }
    }

    /// The level of a spot market of which the exchange reports both
    /// quantities.
    pub fn reported(price: Amount, quantity_base: Amount, quantity_quote: Amount) -> (r: Order)
        ensures
            r == (Order { price, quantity_base, quantity_quote, quantity_contract: None }),
    {
        Order { price, quantity_base, quantity_quote, quantity_contract: None }
    }

    /// The level of `raw_size` at `price` in `pair` on `exchange`, with the
    /// quantities that the formula of the market kind gives.
    ///
    /// The price is above zero.
    pub fn computed(
        registry: &ContractSpecRegistry,
        exchange: &str,
        market_kind: MarketKind,
        pair: &str,
        price: Amount,
        raw_size: Amount,
    ) -> (r: Result<Order, QuantityError>)
        requires
            registry.wf(),
            price.positive(),
            raw_size.wf(),
        ensures
            quantities_of(quantities_in(r)) == computed(
                market_kind,
                price@,
                raw_size@,
                fraction_of(contract_value(registry@, exchange@, market_kind, pair@)),
            ),
            r matches Ok(order) ==> order.price == price,
    {
        match compute_quantities(registry, exchange, market_kind, pair, price, raw_size) {
            Ok(q) => Ok(
                Order {
                    price,
                    quantity_base: q.quantity_base,
                    quantity_quote: q.quantity_quote,
                    quantity_contract: q.quantity_contract,
                },
            ),
            Err(e) => Err(e),
        }
    }
}

} // verus!

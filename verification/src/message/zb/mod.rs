//! ZB messages.
//!
//! A channel of the spot stream is named `btcusdt_trades`: symbol,
//! underscore, what it sends. A channel of the contract stream is named
//! `BTC_USDT.Trade`: symbol, point, what it sends.

pub mod zb_spot;
pub mod zb_swap;

use crate::amount::{amount_of, fraction_of};
use crate::contract_value::registry::{contract_value, ContractSpecRegistry, Tables};
use crate::decimal::{parse_decimal, parsed};
use crate::market::MarketKind;
use crate::message::candle::{mean_price, mean_price_of, Volumes};
use crate::message::types::MessageError;
use crate::quantity::{compute_quantities, computed, QuantityError};
use crate::text::{before, chars_of, find_char, slice, string_of};
use vstd::prelude::*;

verus! {

/// The symbol that a channel is about: what stands before the first
/// `separator` of its name.
pub fn channel_symbol(channel: &str, separator: char) -> (r: String)
    ensures
        r@ == before(channel@, separator),
{
    let c = chars_of(channel);
    string_of(&slice(&c, 0, find_char(&c, separator)))
}

/// The volumes of a candlestick of which the exchange reports the four
/// prices and the quantity traded: the quantity is valued at the mean of the
/// prices, by the formula of the market kind.
pub open spec fn candle_volumes_of(
    tables: Tables,
    kind: MarketKind,
    pair: Seq<char>,
    prices: (Seq<char>, Seq<char>, Seq<char>, Seq<char>),
    quantity: Seq<char>,
) -> Result<Volumes, MessageError> {
    match (parsed(prices.0), parsed(prices.1), parsed(prices.2), parsed(prices.3), parsed(quantity)) {
        (Some(open), Some(high), Some(low), Some(close), Some(size)) => match mean_price_of(
            open,
            high,
            low,
            close,
        ) {
            Some(price) => if !price.positive() {
                Err(MessageError::BadField)
            } else {
                match computed(
                    kind,
                    price@,
                    size@,
                    fraction_of(contract_value(tables, "zb"@, kind, pair)),
                ) {
                    Ok(q) => Ok(
                        Volumes { volume: amount_of(q.base), quote_volume: amount_of(q.quote) },
                    ),
                    Err(e) => Err(MessageError::Quantity(e)),
                }
            },
            None => Err(MessageError::Quantity(QuantityError::Overflow)),
        },
        _ => Err(MessageError::BadField),
    }
}

/// The volumes of a candlestick of which the exchange reports the four
/// prices and the quantity traded.
pub fn read_candle_volumes(
    registry: &ContractSpecRegistry,
    market_kind: MarketKind,
    pair: &str,
    prices: (&str, &str, &str, &str),
    quantity: &str,
) -> (r: Result<Volumes, MessageError>)
    requires
        registry.wf(),
    ensures
        r == candle_volumes_of(
            registry@,
            market_kind,
            pair@,
            (prices.0@, prices.1@, prices.2@, prices.3@),
            quantity@,
        ),
{
    match (
        parse_decimal(prices.0),
        parse_decimal(prices.1),
        parse_decimal(prices.2),
        parse_decimal(prices.3),
        parse_decimal(quantity),
    ) {
        (Some(open), Some(high), Some(low), Some(close), Some(size)) => match mean_price(
            open,
            high,
            low,
            close,
        ) {
            Some(price) => if !price.is_positive() {
                Err(MessageError::BadField)
            } else {
                match compute_quantities(registry, "zb", market_kind, pair, price, size) {
                    Ok(q) => Ok(
                        Volumes { volume: q.quantity_base, quote_volume: q.quantity_quote },
                    ),
                    Err(e) => Err(MessageError::Quantity(e)),
                }
            },
            None => Err(MessageError::Quantity(QuantityError::Overflow)),
        },
        _ => Err(MessageError::BadField),
    }
}

} // verus!

//! The kinds of canonical messages.

use crate::quantity::QuantityError;
use vstd::prelude::*;

verus! {

/// What a message is about.
#[derive(Clone, Copy, Debug, PartialEq, Eq, Hash, Structural)]
pub enum MessageType {
    /// Anything else.
    Other,
    /// Trades, one by one.
    Trade,
    /// Changes of the order book.
    L2Event,
    /// The order book, as a request returned it.
    L2Snapshot,
    /// The best levels of the order book, as the stream sends them.
    L2TopK,
    /// The best bid and ask.
    BBO,
    /// The ticker of the last 24 hours.
    Ticker,
    /// A candlestick.
    Candlestick,
    /// A funding rate.
    FundingRate,
}

/// Which side of a trade was the taker.
#[derive(Clone, Copy, Debug, PartialEq, Eq, Hash, Structural)]
pub enum TradeSide {
    Buy,
    Sell,
}

/// Why a message could not be read.
#[derive(Clone, Copy, Debug, PartialEq, Eq, Hash, Structural)]
pub enum MessageError {
    /// The message has no `data` field.
    NoData,
    /// The message is the response to a request that failed.
    FailedResponse,
    /// The message has none of the known shapes.
    UnknownFormat,
    /// The message names a channel that is not known.
    UnknownChannel,
    /// The message names an instrument type that is not known.
    UnknownInstType,
    /// The message holds no data to read a time from.
    EmptyData,
    /// The message lacks a field, or a field is of the wrong kind.
    BadShape,
    /// A field does not hold what it should.
    BadField,
    /// No quantities could be computed.
    Quantity(QuantityError),
}

/// The text of a string that was read, or the error.
pub open spec fn text_result(r: Result<String, MessageError>) -> Result<Seq<char>, MessageError> {
    match r {
        Ok(s) => Ok(s@),
        Err(e) => Err(e),
    }
}

/// The taker's side as the exchanges write it: `sell` is a sale, anything
/// else a purchase.
pub open spec fn side_of(text: Seq<char>) -> TradeSide {
    if text == "sell"@ {
        TradeSide::Sell
    } else {
        TradeSide::Buy
    }
}

/// The taker's side as MEXC numbers it: 2 is a sale, anything else a
/// purchase.
pub open spec fn side_of_number(n: int) -> TradeSide {
    if n == 2 {
        TradeSide::Sell
    } else {
        TradeSide::Buy
    }
}

/// Reads the taker's side off the word of an exchange.
pub fn trade_side(text: &str) -> (r: TradeSide)
    ensures
        r == side_of(text@),
{
    if crate::text::same_text(&crate::text::chars_of(text), &crate::text::chars_of("sell")) {
        TradeSide::Sell
    } else {
        TradeSide::Buy
    }
}

/// Reads the taker's side off the number of MEXC.
pub fn trade_side_of_number(n: i64) -> (r: TradeSide)
    ensures
        r == side_of_number(n as int),
{
    if n == 2 {
        TradeSide::Sell
    } else {
        TradeSide::Buy
    }
}

} // verus!

//! The contract stream of ZB.

use crate::contract_value::registry::ContractSpecRegistry;
use crate::market::MarketKind;
use crate::message::json::{read_all_values, read_each, values, Json, Reading};
use crate::message::order::{read_computed_order, Order};
use crate::message::number::{i64_of, parse_i64};
use crate::message::period::{
    fit_i64, in_millis, in_millis_of, latest_millis, latest_millis_of, scale, scaled,
};
use crate::message::types::{MessageError, MessageType};
use crate::message::zb::zb_spot::{numbers, numbers_in};
use crate::text::{
    chars_of, ends_with, final_piece, has_prefix, has_suffix, last_piece, nth_piece, piece,
    same_text, starts_with, string_of, strip_suffix, without_suffix,
};
use vstd::prelude::*;

verus! {

/// What a channel of the contract stream sends.
#[derive(Clone, Copy, Debug, PartialEq, Eq, Hash, Structural)]
pub enum SwapChannel {
    Trade,
    Depth,
    /// The ticker of every instrument, on the channel `All.Ticker`.
    AllTickers,
    /// The ticker of one instrument.
    Ticker,
    Kline,
}

/// What the contract channel of that name sends: the second part of its
/// name tells.
pub open spec fn swap_channel_of(channel: Seq<char>) -> Result<SwapChannel, MessageError> {
    match piece(channel, '.', 1) {
        Some(kind) => if kind == "Trade"@ {
            Ok(SwapChannel::Trade)
        } else if kind == "Depth"@ || kind == "DepthWhole"@ {
            Ok(SwapChannel::Depth)
        } else if kind == "Ticker"@ {
            if channel == "All.Ticker"@ {
                Ok(SwapChannel::AllTickers)
            } else {
                Ok(SwapChannel::Ticker)
            }
        } else if starts_with(kind, "KLine_"@) {
            Ok(SwapChannel::Kline)
        } else {
            Err(MessageError::UnknownChannel)
        },
        None => Err(MessageError::BadField),
    }
}

/// The time that the data of an order book message writes, as a text, if
/// it writes one.
pub open spec fn depth_time_of(msg: Json) -> Result<Option<i64>, MessageError> {
    match msg.field("data"@) {
        Some(data) => match data.field("time"@) {
            Some(time) => match time.text() {
                Some(time) => match i64_of(time) {
                    Some(t) => Ok(Some(t)),
                    None => Err(MessageError::BadField),
                },
                None => Err(MessageError::BadField),
            },
            None => Ok(None),
        },
        None => Err(MessageError::BadField),
    }
}

/// The time of a message with the tickers of all instruments: the latest
/// of their times, each in the seventh place of a ticker.
pub open spec fn tickers_time_of(msg: Json) -> Result<Option<i64>, MessageError> {
    match msg.at("data"@) {
        Json::Object(tickers) => match read_each(values(tickers@), Reading::WholeAt(6)) {
            Some(times) => latest_millis_of(times, 1000),
            None => Err(MessageError::BadField),
        },
        _ => Err(MessageError::BadField),
    }
}

/// The time of a message of the stream, by what its channel sends.
pub open spec fn channel_time_of(msg: Json, channel: SwapChannel) -> Result<
    Option<i64>,
    MessageError,
> {
    match channel {
        SwapChannel::Trade => match numbers_in(msg.at("data"@), Reading::WholeAt(3)) {
            Ok(times) => latest_millis_of(times, 1000),
            Err(e) => Err(e),
        },
        SwapChannel::Depth => depth_time_of(msg),
        SwapChannel::AllTickers => tickers_time_of(msg),
        SwapChannel::Ticker => in_millis_of(crate::message::json::read(msg.at("data"@), Reading::WholeAt(6)), 1000),
        SwapChannel::Kline => match numbers_in(msg.at("data"@), Reading::WholeAt(5)) {
            Ok(times) => latest_millis_of(times, 1000),
            Err(e) => Err(e),
        },
    }
}

/// The time that the data of a response writes, if it writes one.
pub open spec fn rest_time_of(msg: Json) -> Result<Option<i64>, MessageError> {
    match msg.at("data"@).field("time"@) {
        Some(time) => match time.whole() {
            Some(t) => Ok(Some(t)),
            None => Err(MessageError::BadField),
        },
        None => Ok(None),
    }
}

/// The time of a message, where it has one. A message without a channel
/// that has a `code`, a `desc` and `data` is the response to a request.
pub open spec fn timestamp_of(msg: Json) -> Result<Option<i64>, MessageError> {
    if !(msg is Object) {
        Err(MessageError::BadShape)
    } else {
        match msg.field("channel"@) {
            Some(channel) => match channel.text() {
                Some(channel) => match swap_channel_of(channel) {
                    Ok(channel) => channel_time_of(msg, channel),
                    Err(e) => Err(e),
                },
                None => Err(MessageError::BadField),
            },
            None => if msg.has("code"@) && msg.has("desc"@) && msg.has("data"@) {
                rest_time_of(msg)
            } else {
                Err(MessageError::UnknownFormat)
            },
        }
    }
}

/// What the contract channel of that name sends.
pub fn swap_channel(channel: &str) -> (r: Result<SwapChannel, MessageError>)
    ensures
        r == swap_channel_of(channel@),
{
    let c = chars_of(channel);
    match nth_piece(&c, '.', 1) {
        Some(kind) => if same_text(&kind, &chars_of("Trade")) {
            Ok(SwapChannel::Trade)
        } else if same_text(&kind, &chars_of("Depth")) || same_text(
            &kind,
            &chars_of("DepthWhole"),
        ) {
            Ok(SwapChannel::Depth)
        } else if same_text(&kind, &chars_of("Ticker")) {
            if same_text(&c, &chars_of("All.Ticker")) {
                Ok(SwapChannel::AllTickers)
            } else {
                Ok(SwapChannel::Ticker)
            }
        } else if has_prefix(&kind, "KLine_") {
            Ok(SwapChannel::Kline)
        } else {
            Err(MessageError::UnknownChannel)
        },
        None => Err(MessageError::BadField),
    }
}

fn depth_time(msg: &Json) -> (r: Result<Option<i64>, MessageError>)
    ensures
        r == depth_time_of(*msg),
{
    match msg.get("data") {
        Some(data) => match data.get("time") {
            Some(time) => match time.as_str() {
                Some(time) => match parse_i64(time) {
                    Some(t) => Ok(Some(t)),
                    None => Err(MessageError::BadField),
                },
                None => Err(MessageError::BadField),
            },
            None => Ok(None),
        },
        None => Err(MessageError::BadField),
    }
}

fn tickers_time(msg: &Json) -> (r: Result<Option<i64>, MessageError>)
    ensures
        r == tickers_time_of(*msg),
{
    match msg.get("data") {
        Some(Json::Object(tickers)) => match read_all_values(tickers, &Reading::WholeAt(6)) {
            Some(times) => latest_millis(&times, 1000),
            None => Err(MessageError::BadField),
        },
        _ => Err(MessageError::BadField),
    }
}

fn channel_time(msg: &Json, channel: SwapChannel) -> (r: Result<Option<i64>, MessageError>)
    ensures
        r == channel_time_of(*msg, channel),
{
    match channel {
        SwapChannel::Trade => match numbers(msg.get("data"), Reading::WholeAt(3)) {
            Ok(times) => latest_millis(&times, 1000),
            Err(e) => Err(e),
        },
        SwapChannel::Depth => depth_time(msg),
        SwapChannel::AllTickers => tickers_time(msg),
        SwapChannel::Ticker => {
            let time = match msg.get("data") {
                Some(data) => crate::message::json::read_i64(data, &Reading::WholeAt(6)),
                None => None,
            };
            in_millis(time, 1000)
        },
        SwapChannel::Kline => match numbers(msg.get("data"), Reading::WholeAt(5)) {
            Ok(times) => latest_millis(&times, 1000),
            Err(e) => Err(e),
        },
    }
}

fn rest_time(msg: &Json) -> (r: Result<Option<i64>, MessageError>)
    ensures
        r == rest_time_of(*msg),
{
    let time = match msg.get("data") {
        Some(data) => data.get("time"),
        None => None,
    };
    match time {
        Some(time) => match time.as_i64() {
            Some(t) => Ok(Some(t)),
            None => Err(MessageError::BadField),
        },
        None => Ok(None),
    }
}

/// The time of a message, where it has one.
pub fn extract_timestamp(msg: &Json) -> (r: Result<Option<i64>, MessageError>)
    ensures
        r == timestamp_of(*msg),
{
    if !msg.is_object() {
        return Err(MessageError::BadShape);
    }
    match msg.get("channel") {
        Some(channel) => match channel.as_str() {
            Some(channel) => match swap_channel(channel) {
                Ok(channel) => channel_time(msg, channel),
                Err(e) => Err(e),
            },
            None => Err(MessageError::BadField),
        },
        None => if msg.contains_key("code") && msg.contains_key("desc") && msg.contains_key(
            "data",
        ) {
            rest_time(msg)
        } else {
            Err(MessageError::UnknownFormat)
        },
    }
}

/// The period of a candlestick channel of the contract stream: the last
/// part of what follows the last point of its name, as `1M` in
/// `BTC_USDT.KLine_1M`.
pub fn swap_period(channel: &str) -> (r: String)
    ensures
        r@ == last_piece(last_piece(channel@, '.'), '_'),
{
    string_of(&final_piece(&final_piece(&chars_of(channel), '.'), '_'))
}

/// The length of a period of the contract stream in milliseconds: a count
/// of minutes (`M`), hours (`H`) or days (`D`); nothing for any other unit.
pub open spec fn swap_period_millis_of(period: Seq<char>) -> Option<int> {
    if ends_with(period, "M"@) {
        scaled(strip_suffix(period, "M"@), 60000)
    } else if ends_with(period, "H"@) {
        scaled(strip_suffix(period, "H"@), 3600000)
    } else if ends_with(period, "D"@) {
        scaled(strip_suffix(period, "D"@), 86400000)
    } else {
        Some(0)
    }
}

fn counted(period: &Vec<char>, unit: &str, millis: i64) -> (r: Option<i64>)
    requires
        ends_with(period@, unit@),
    ensures
        r == fit_i64(scaled(strip_suffix(period@, unit@), millis as int)),
{
    scale(&crate::text::without_suffix(period, unit), millis)
}

/// The length of a period of the contract stream in milliseconds. `None`
/// where the period has no count, or where the length does not fit.
pub fn swap_period_millis(period: &str) -> (r: Option<i64>)
    ensures
        r == fit_i64(swap_period_millis_of(period@)),
{
    let p = chars_of(period);
    if has_suffix(&p, "M") {
        counted(&p, "M", 60000)
    } else if has_suffix(&p, "H") {
        counted(&p, "H", 3600000)
    } else if has_suffix(&p, "D") {
        counted(&p, "D", 86400000)
    } else {
        Some(0)
    }
}

/// What an order book message of the contract stream is about, and whether
/// it is a snapshot. A channel that ends with `.DepthWhole` sends the best
/// levels, always as a snapshot; one that ends with `.Depth` sends changes,
/// and a snapshot where the message is of the type `Whole`.
pub open spec fn depth_flags_of(channel: Seq<char>, kind: Option<Seq<char>>) -> Option<
    (MessageType, bool),
> {
    if ends_with(channel, ".DepthWhole"@) {
        Some((MessageType::L2TopK, true))
    } else if ends_with(channel, ".Depth"@) {
        Some((MessageType::L2Event, kind == Some("Whole"@)))
    } else {
        None
    }
}

/// What an order book message of the contract stream is about, and whether
/// it is a snapshot. `None` for a channel that sends no order book.
pub fn depth_flags(channel: &str, kind: Option<&str>) -> (r: Option<(MessageType, bool)>)
    ensures
        r == depth_flags_of(
            channel@,
            match kind {
                Some(k) => Some(k@),
                None => None,
            },
        ),
{
    let c = chars_of(channel);
    if has_suffix(&c, ".DepthWhole") {
        Some((MessageType::L2TopK, true))
    } else if has_suffix(&c, ".Depth") {
        let whole = match kind {
            Some(k) => same_text(&chars_of(k), &chars_of("Whole")),
            None => false,
        };
        Some((MessageType::L2Event, whole))
    } else {
        None
    }
}

/// The level that a trade or an order book of the contract stream writes:
/// it counts sizes in contracts.
pub fn read_level(
    registry: &ContractSpecRegistry,
    market_kind: MarketKind,
    pair: &str,
    price: &str,
    raw_size: &str,
) -> (r: Result<Order, MessageError>)
    requires
        registry.wf(),
    ensures
        r == read_computed_order(registry@, "zb"@, market_kind, pair@, price@, raw_size@),
{
    Order::read_computed(registry, "zb", market_kind, pair, price, raw_size)
}

} // verus!

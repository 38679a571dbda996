//! The spot stream of ZB.

use crate::market::MarketKind;
use crate::message::json::{read_all, read_each, Json, Reading};
use crate::message::order::{read_plain_order, Order};
use crate::message::number::{i64_of, parse_i64};
use crate::message::period::{
    fit_i64, in_millis, in_millis_of, latest_millis, latest_millis_of, scale, scaled,
};
use crate::message::types::MessageError;
use crate::text::{
    chars_of, ends_with, final_piece, has_suffix, last_piece, nth_piece, piece, same_text,
    string_of, strip_suffix, without_suffix,
};
use vstd::prelude::*;

verus! {

/// What a channel of the spot stream sends.
#[derive(Clone, Copy, Debug, PartialEq, Eq, Hash, Structural)]
pub enum SpotChannel {
    Ticker,
    Depth,
    Trades,
    Kline,
}

/// What the spot channel of that name sends: the second part of its name
/// tells.
pub open spec fn spot_channel_of(channel: Seq<char>) -> Result<SpotChannel, MessageError> {
    match piece(channel, '_', 1) {
        Some(kind) => if kind == "ticker"@ {
            Ok(SpotChannel::Ticker)
        } else if kind == "depth"@ {
            Ok(SpotChannel::Depth)
        } else if kind == "trades"@ {
            Ok(SpotChannel::Trades)
        } else if kind == "kline"@ {
            Ok(SpotChannel::Kline)
        } else {
            Err(MessageError::UnknownChannel)
        },
        None => Err(MessageError::BadField),
    }
}

/// The time in milliseconds that a field in seconds writes, if the message
/// has the field.
pub open spec fn seconds_of(msg: Json, name: Seq<char>) -> Result<Option<i64>, MessageError> {
    match msg.field(name) {
        Some(time) => in_millis_of(time.whole(), 1000),
        None => Ok(None),
    }
}

/// The whole numbers that stand in each item of `list` where `reading`
/// says; an error where `list` is no list, or an item holds none there.
pub open spec fn numbers_in(list: Json, reading: Reading) -> Result<Seq<i64>, MessageError> {
    match list.items() {
        Some(items) => match read_each(items, reading) {
            Some(numbers) => Ok(numbers),
            None => Err(MessageError::BadField),
        },
        None => Err(MessageError::BadField),
    }
}

/// The time of a message of the stream, by what its channel sends.
pub open spec fn channel_time_of(msg: Json, channel: SpotChannel) -> Result<
    Option<i64>,
    MessageError,
> {
    match channel {
        SpotChannel::Ticker => match msg.text_of("date"@) {
            Some(date) => match i64_of(date) {
                Some(t) => Ok(Some(t)),
                None => Err(MessageError::BadField),
            },
            None => Err(MessageError::BadField),
        },
        SpotChannel::Depth => seconds_of(msg, "timestamp"@),
        SpotChannel::Trades => match numbers_in(msg.at("data"@), Reading::Whole("date")) {
            Ok(times) => latest_millis_of(times, 1000),
            Err(e) => Err(e),
        },
        SpotChannel::Kline => match numbers_in(
            msg.at("datas"@).at("data"@),
            Reading::WholeAt(0),
        ) {
            Ok(times) => latest_millis_of(times, 1),
            Err(e) => Err(e),
        },
    }
}

/// The time of a message, where it has one. A message without a channel
/// is the response to a request.
pub open spec fn timestamp_of(msg: Json) -> Result<Option<i64>, MessageError> {
    if !(msg is Object) {
        Err(MessageError::BadShape)
    } else {
        match msg.field("channel"@) {
            Some(channel) => match channel.text() {
                Some(channel) => match spot_channel_of(channel) {
                    Ok(channel) => channel_time_of(msg, channel),
                    Err(e) => Err(e),
                },
                None => Err(MessageError::BadField),
            },
            None => seconds_of(msg, "timestamp"@),
        }
    }
}

/// What the spot channel of that name sends.
pub fn spot_channel(channel: &str) -> (r: Result<SpotChannel, MessageError>)
    ensures
        r == spot_channel_of(channel@),
{
    match nth_piece(&chars_of(channel), '_', 1) {
        Some(kind) => if same_text(&kind, &chars_of("ticker")) {
            Ok(SpotChannel::Ticker)
        } else if same_text(&kind, &chars_of("depth")) {
            Ok(SpotChannel::Depth)
        } else if same_text(&kind, &chars_of("trades")) {
            Ok(SpotChannel::Trades)
        } else if same_text(&kind, &chars_of("kline")) {
            Ok(SpotChannel::Kline)
        } else {
            Err(MessageError::UnknownChannel)
        },
        None => Err(MessageError::BadField),
    }
}

fn seconds(msg: &Json, name: &str) -> (r: Result<Option<i64>, MessageError>)
    ensures
        r == seconds_of(*msg, name@),
{
    match msg.get(name) {
        Some(time) => in_millis(time.as_i64(), 1000),
        None => Ok(None),
    }
}

/// The whole numbers that stand in each item of `list` where `reading`
/// says.
pub fn numbers(list: Option<&Json>, reading: Reading) -> (r: Result<Vec<i64>, MessageError>)
    ensures
        match r {
            Ok(found) => list matches Some(l) && numbers_in(*l, reading) == Ok::<_, MessageError>(
                found@,
            ),
            Err(e) => e == MessageError::BadField && (list matches Some(l) ==> numbers_in(
                *l,
                reading,
            ) is Err),
        },
{
    match list {
        Some(list) => match list.as_array() {
            Some(items) => match read_all(items, &reading) {
                Some(found) => Ok(found),
                None => Err(MessageError::BadField),
            },
            None => Err(MessageError::BadField),
        },
        None => Err(MessageError::BadField),
    }
}

fn channel_time(msg: &Json, channel: SpotChannel) -> (r: Result<Option<i64>, MessageError>)
    ensures
        r == channel_time_of(*msg, channel),
{
    match channel {
        SpotChannel::Ticker => match msg.str_at("date") {
            Some(date) => match parse_i64(date) {
                Some(t) => Ok(Some(t)),
                None => Err(MessageError::BadField),
            },
            None => Err(MessageError::BadField),
        },
        SpotChannel::Depth => seconds(msg, "timestamp"),
        SpotChannel::Trades => match numbers(msg.get("data"), Reading::Whole("date")) {
            Ok(times) => latest_millis(&times, 1000),
            Err(e) => Err(e),
        },
        SpotChannel::Kline => {
            let list = match msg.get("datas") {
                Some(datas) => datas.get("data"),
                None => None,
            };
            match numbers(list, Reading::WholeAt(0)) {
                Ok(times) => latest_millis(&times, 1),
                Err(e) => Err(e),
            }
        },
    }
}

/// The time of a message, where it has one.
pub fn extract_timestamp(msg: &Json) -> (r: Result<Option<i64>, MessageError>)
    ensures
        r == timestamp_of(*msg),
{
    if !msg.is_object() {
        return Err(MessageError::BadShape);
    }
    match msg.get("channel") {
        Some(channel) => match channel.as_str() {
            Some(channel) => match spot_channel(channel) {
                Ok(channel) => channel_time(msg, channel),
                Err(e) => Err(e),
            },
            None => Err(MessageError::BadField),
        },
        None => seconds(msg, "timestamp"),
    }
}

/// The period of a candlestick channel of the spot stream: the last part of
/// its name, as `1min` in `btcusdt_kline_1min`.
pub fn spot_period(channel: &str) -> (r: String)
    ensures
        r@ == last_piece(channel@, '_'),
{
    string_of(&final_piece(&chars_of(channel), '_'))
}

/// The length of a period of the spot stream in milliseconds: a count of
/// `min`, `hour`, `day` or `week`; nothing for any other unit.
pub open spec fn spot_period_millis_of(period: Seq<char>) -> Option<int> {
    if ends_with(period, "min"@) {
        scaled(strip_suffix(period, "min"@), 60000)
    } else if ends_with(period, "hour"@) {
        scaled(strip_suffix(period, "hour"@), 3600000)
    } else if ends_with(period, "day"@) {
        scaled(strip_suffix(period, "day"@), 86400000)
    } else if ends_with(period, "week"@) {
        scaled(strip_suffix(period, "week"@), 604800000)
    } else {
        Some(0)
    }
}

fn counted(period: &Vec<char>, unit: &str, millis: i64) -> (r: Option<i64>)
    requires
        ends_with(period@, unit@),
    ensures
        r == fit_i64(scaled(strip_suffix(period@, unit@), millis as int)),
{
    scale(&crate::text::without_suffix(period, unit), millis)
}

/// The length of a period of the spot stream in milliseconds. `None` where
/// the period has no count, or where the length does not fit.
pub fn spot_period_millis(period: &str) -> (r: Option<i64>)
    ensures
        r == fit_i64(spot_period_millis_of(period@)),
{
    let p = chars_of(period);
    if has_suffix(&p, "min") {
        counted(&p, "min", 60000)
    } else if has_suffix(&p, "hour") {
        counted(&p, "hour", 3600000)
    } else if has_suffix(&p, "day") {
        counted(&p, "day", 86400000)
    } else if has_suffix(&p, "week") {
        counted(&p, "week", 604800000)
    } else {
        Some(0)
    }
}

/// The level that a trade or the best levels of the spot stream write,
/// price and quantity in base coins.
pub fn read_level(price: &str, quantity: &str) -> (r: Result<Order, MessageError>)
    ensures
        r == read_plain_order(price@, quantity@, MarketKind::Spot),
{
    Order::read_plain(price, quantity, MarketKind::Spot)
}

} // verus!

//! MEXC messages.

use crate::contract_value::registry::{contract_value, ContractSpecRegistry, Tables};
use crate::decimal::{parse_decimal, parsed};
use crate::market::MarketKind;
use crate::message::candle::{swap_volumes, swap_volumes_of, Volumes};
use crate::message::json::{read_all, read_each, Json, Reading};
use crate::message::order::{
    read_computed_order, read_plain_order, read_reported_order, Order,
};
use crate::message::number::{latest, latest_of};
use crate::message::period::{fit_i64, in_millis, in_millis_of, scale, scaled};
use crate::message::types::{text_result, MessageError, MessageType};
use crate::text::{
    chars_of, has_prefix, same_text, slice, starts_with, string_of, strip_prefix,
};
use vstd::prelude::*;

verus! {

/// The length of an interval in seconds: a count of minutes (`Min`), hours
/// (`Hour`), days (`Day`), weeks (`Week`) or months of thirty weeks
/// (`Month`); nothing for any other unit.
pub open spec fn interval_seconds_of(interval: Seq<char>) -> Option<int> {
    if starts_with(interval, "Min"@) {
        scaled(strip_prefix(interval, "Min"@), 60)
    } else if starts_with(interval, "Hour"@) {
        scaled(strip_prefix(interval, "Hour"@), 3600)
    } else if starts_with(interval, "Day"@) {
        scaled(strip_prefix(interval, "Day"@), 86400)
    } else if starts_with(interval, "Week"@) {
        scaled(strip_prefix(interval, "Week"@), 604800)
    } else if starts_with(interval, "Month"@) {
        scaled(strip_prefix(interval, "Month"@), 18144000)
    } else {
        Some(0)
    }
}

fn counted(interval: &Vec<char>, unit: &str, seconds: i64) -> (r: Option<i64>)
    requires
        starts_with(interval@, unit@),
    ensures
        r == fit_i64(scaled(strip_prefix(interval@, unit@), seconds as int)),
{
    let n = chars_of(unit).len();
    let count = slice(interval, n, interval.len());
    assert(count@ =~= strip_prefix(interval@, unit@));
    scale(&count, seconds)
}

/// The length of an interval in seconds. `None` where the interval has no
/// count, or where the length does not fit.
pub fn interval_seconds(interval: &str) -> (r: Option<i64>)
    ensures
        r == fit_i64(interval_seconds_of(interval@)),
{
    let i = chars_of(interval);
    if has_prefix(&i, "Min") {
        counted(&i, "Min", 60)
    } else if has_prefix(&i, "Hour") {
        counted(&i, "Hour", 3600)
    } else if has_prefix(&i, "Day") {
        counted(&i, "Day", 86400)
    } else if has_prefix(&i, "Week") {
        counted(&i, "Week", 604800)
    } else if has_prefix(&i, "Month") {
        counted(&i, "Month", 18144000)
    } else {
        Some(0)
    }
}

/// The time in milliseconds at which a candlestick began that ended at
/// `end`, a time in seconds, after an interval of `seconds`.
pub open spec fn candle_begin_of(end: int, seconds: int) -> int {
    end * 1000 - seconds * 1000
}

/// The time in milliseconds at which a candlestick began that ended at
/// `end`, a time in seconds, after an interval of `seconds`. `None` where a
/// time does not fit.
pub fn candle_begin(end: i64, seconds: i64) -> (r: Option<i64>)
    ensures
        match r {
            Some(t) => t == candle_begin_of(end as int, seconds as int),
            None => fit_i64(Some(end * 1000)) is None || fit_i64(Some(seconds * 1000)) is None
                || fit_i64(Some(candle_begin_of(end as int, seconds as int))) is None,
        },
{
    match (end.checked_mul(1000), seconds.checked_mul(1000)) {
        (Some(e), Some(s)) => e.checked_sub(s),
        _ => None,
    }
}

/// What a channel of the contract stream sends about the order book, and
/// whether that is a snapshot: `push.depth.full` sends the best levels as a
/// snapshot, `push.depth` sends changes.
pub open spec fn depth_flags_of(channel: Seq<char>) -> Option<(MessageType, bool)> {
    if channel == "push.depth.full"@ {
        Some((MessageType::L2TopK, true))
    } else if channel == "push.depth"@ {
        Some((MessageType::L2Event, false))
    } else {
        None
    }
}

/// What a channel of the contract stream sends about the order book, and
/// whether that is a snapshot. `None` for a channel that sends neither.
pub fn depth_flags(channel: &str) -> (r: Option<(MessageType, bool)>)
    ensures
        r == depth_flags_of(channel@),
{
    let c = chars_of(channel);
    if same_text(&c, &chars_of("push.depth.full")) {
        Some((MessageType::L2TopK, true))
    } else if same_text(&c, &chars_of("push.depth")) {
        Some((MessageType::L2Event, false))
    } else {
        None
    }
}

/// Whether the code of a response tells that the request succeeded.
pub open spec fn succeeded(code: i64) -> bool {
    code == 0 || code == 200
}

/// The text of `value`, if it is one.
pub open spec fn text_or_bad(value: Json) -> Result<Seq<char>, MessageError> {
    match value.text() {
        Some(t) => Ok(t),
        None => Err(MessageError::BadField),
    }
}

/// The whole number of `value`, if it is one.
pub open spec fn whole_or_bad(value: Json) -> Result<Option<i64>, MessageError> {
    match value.whole() {
        Some(n) => Ok(Some(n)),
        None => Err(MessageError::BadField),
    }
}

/// The symbol of a response: the one that its data names, `NONE` where it
/// names none; an error where the request failed.
pub open spec fn rest_symbol_of(msg: Json) -> Result<Seq<char>, MessageError> {
    match msg.whole_of("code"@) {
        Some(code) => if !succeeded(code) {
            Err(MessageError::FailedResponse)
        } else if !(msg.at("data"@) is Object) {
            Err(MessageError::BadField)
        } else {
            match msg.at("data"@).field("symbol"@) {
                Some(symbol) => text_or_bad(symbol),
                None => Ok("NONE"@),
            }
        },
        None => Err(MessageError::BadField),
    }
}

/// The symbol that a message is about. A message is a list, of which the
/// second item names the symbol; or the response to a request; or an object
/// that names the symbol.
pub open spec fn symbol_of(msg: Json) -> Result<Seq<char>, MessageError> {
    match msg {
        Json::Array(items) => if items.len() > 1 {
            text_or_bad(items[1].at("symbol"@))
        } else {
            Err(MessageError::BadField)
        },
        Json::Object(_) => if msg.has("code"@) && msg.has("data"@) {
            rest_symbol_of(msg)
        } else {
            match msg.field("symbol"@) {
                Some(symbol) => text_or_bad(symbol),
                None => Err(MessageError::UnknownFormat),
            }
        },
        _ => Err(MessageError::UnknownFormat),
    }
}

/// The time of a list of trades: the latest of their times `t`. An empty
/// list is an error.
pub open spec fn deals_time_of(deals: Json) -> Result<Option<i64>, MessageError> {
    match deals.items() {
        Some(items) => match read_each(items, Reading::Whole("t")) {
            Some(times) => if times.len() == 0 {
                Err(MessageError::EmptyData)
            } else {
                Ok(latest_of(times))
            },
            None => Err(MessageError::BadField),
        },
        None => Err(MessageError::BadField),
    }
}

/// The time of data with trades: that of its trades, none where it lists
/// no trades.
pub open spec fn data_time_of(data: Json) -> Result<Option<i64>, MessageError> {
    match data.field("deals"@) {
        Some(deals) => deals_time_of(deals),
        None => Ok(None),
    }
}

/// The time of a message that is a list: the first item names the channel,
/// the second carries the data. The spot stream sends such messages.
pub open spec fn list_time_of(items: Seq<Json>) -> Result<Option<i64>, MessageError> {
    if items.len() == 0 {
        Err(MessageError::BadField)
    } else {
        match items[0].text() {
            Some(channel) => if channel == "push.symbol"@ {
                if items.len() > 1 && items[1].at("data"@) is Object {
                    data_time_of(items[1].at("data"@))
                } else {
                    Err(MessageError::BadField)
                }
            } else if channel == "push.kline"@ {
                if items.len() > 1 && items[1].at("data"@) is Object {
                    in_millis_of(items[1].at("data"@).whole_of("t"@), 1000)
                } else {
                    Err(MessageError::BadField)
                }
            } else {
                Err(MessageError::UnknownChannel)
            },
            None => Err(MessageError::BadField),
        }
    }
}

/// The time of a response: the one that its data writes, if any; an error
/// where the request failed.
pub open spec fn rest_time_of(msg: Json) -> Result<Option<i64>, MessageError> {
    match msg.whole_of("code"@) {
        Some(code) => if !succeeded(code) {
            Err(MessageError::FailedResponse)
        } else if !(msg.at("data"@) is Object) {
            Err(MessageError::BadField)
        } else {
            match msg.at("data"@).field("timestamp"@) {
                Some(time) => whole_or_bad(time),
                None => Ok(None),
            }
        },
        None => Err(MessageError::BadField),
    }
}

/// The time of a message of the stream that is an object: its `ts` where
/// it has one; else that of its candlestick, or of its trades.
pub open spec fn stream_time_of(msg: Json) -> Result<Option<i64>, MessageError> {
    match msg.text_of("channel"@) {
        Some(channel) => match msg.field("ts"@) {
            Some(ts) => whole_or_bad(ts),
            None => match msg.field("data"@) {
                Some(data) => if channel == "push.kline"@ {
                    if !(data is Object) {
                        Err(MessageError::BadField)
                    } else {
                        match data.field("tdt"@) {
                            Some(tdt) => whole_or_bad(tdt),
                            None => in_millis_of(data.whole_of("t"@), 1000),
                        }
                    }
                } else {
                    data_time_of(data)
                },
                None => Err(MessageError::BadField),
            },
        },
        None => Err(MessageError::BadField),
    }
}

/// The time of a message, where it has one.
pub open spec fn timestamp_of(msg: Json) -> Result<Option<i64>, MessageError> {
    match msg {
        Json::Array(items) => list_time_of(items@),
        Json::Object(_) => if msg.has("code"@) && msg.has("data"@) {
            rest_time_of(msg)
        } else {
            stream_time_of(msg)
        },
        _ => Err(MessageError::UnknownFormat),
    }
}

/// Whether the code of a response tells that the request succeeded.
pub fn request_succeeded(code: i64) -> (r: bool)
    ensures
        r == succeeded(code),
{
    code == 0 || code == 200
}

fn text_field(value: &Json) -> (r: Result<String, MessageError>)
    ensures
        text_result(r) == text_or_bad(*value),
{
    match value.as_str() {
        Some(t) => Ok(string_of(&chars_of(t))),
        None => Err(MessageError::BadField),
    }
}

fn whole_field(value: &Json) -> (r: Result<Option<i64>, MessageError>)
    ensures
        r == whole_or_bad(*value),
{
    match value.as_i64() {
        Some(n) => Ok(Some(n)),
        None => Err(MessageError::BadField),
    }
}

fn object_data(msg: &Json) -> (r: Option<&Json>)
    ensures
        match r {
            Some(data) => msg.at("data"@) is Object && *data == msg.at("data"@),
            None => !(msg.at("data"@) is Object),
        },
{
    match msg.get("data") {
        Some(data) => if data.is_object() {
            Some(data)
        } else {
            None
        },
        None => None,
    }
}

/// The symbol that a message is about.
pub fn extract_symbol(msg: &Json) -> (r: Result<String, MessageError>)
    ensures
        text_result(r) == symbol_of(*msg),
{
    match msg {
        Json::Array(items) => if items.len() > 1 {
            match items[1].get("symbol") {
                Some(symbol) => text_field(symbol),
                None => Err(MessageError::BadField),
            }
        } else {
            Err(MessageError::BadField)
        },
        Json::Object(_) => if msg.contains_key("code") && msg.contains_key("data") {
            match msg.i64_at("code") {
                Some(code) => if !request_succeeded(code) {
                    Err(MessageError::FailedResponse)
                } else {
                    match object_data(msg) {
                        Some(data) => match data.get("symbol") {
                            Some(symbol) => text_field(symbol),
                            None => Ok(string_of(&chars_of("NONE"))),
                        },
                        None => Err(MessageError::BadField),
                    }
                },
                None => Err(MessageError::BadField),
            }
        } else {
            match msg.get("symbol") {
                Some(symbol) => text_field(symbol),
                None => Err(MessageError::UnknownFormat),
            }
        },
        _ => Err(MessageError::UnknownFormat),
    }
}

fn deals_time(deals: &Json) -> (r: Result<Option<i64>, MessageError>)
    ensures
        r == deals_time_of(*deals),
{
    match deals.as_array() {
        Some(items) => match read_all(items, &Reading::Whole("t")) {
            Some(times) => if times.len() == 0 {
                Err(MessageError::EmptyData)
            } else {
                Ok(latest(&times))
            },
            None => Err(MessageError::BadField),
        },
        None => Err(MessageError::BadField),
    }
}

fn data_time(data: &Json) -> (r: Result<Option<i64>, MessageError>)
    ensures
        r == data_time_of(*data),
{
    match data.get("deals") {
        Some(deals) => deals_time(deals),
        None => Ok(None),
    }
}

fn list_time(items: &Vec<Json>) -> (r: Result<Option<i64>, MessageError>)
    ensures
        r == list_time_of(items@),
{
    if items.len() == 0 {
        return Err(MessageError::BadField);
    }
    match items[0].as_str() {
        Some(channel) => {
            let channel = chars_of(channel);
            let symbol = same_text(&channel, &chars_of("push.symbol"));
            let kline = same_text(&channel, &chars_of("push.kline"));
            if !symbol && !kline {
                return Err(MessageError::UnknownChannel);
            }
            if items.len() < 2 {
                return Err(MessageError::BadField);
            }
            match object_data(&items[1]) {
                Some(data) => if symbol {
                    data_time(data)
                } else {
                    in_millis(data.i64_at("t"), 1000)
                },
                None => Err(MessageError::BadField),
            }
        },
        None => Err(MessageError::BadField),
    }
}

fn rest_time(msg: &Json) -> (r: Result<Option<i64>, MessageError>)
    ensures
        r == rest_time_of(*msg),
{
    match msg.i64_at("code") {
        Some(code) => if !request_succeeded(code) {
            Err(MessageError::FailedResponse)
        } else {
            match object_data(msg) {
                Some(data) => match data.get("timestamp") {
                    Some(time) => whole_field(time),
                    None => Ok(None),
                },
                None => Err(MessageError::BadField),
            }
        },
        None => Err(MessageError::BadField),
    }
}

fn stream_time(msg: &Json) -> (r: Result<Option<i64>, MessageError>)
    ensures
        r == stream_time_of(*msg),
{
    match msg.str_at("channel") {
        Some(channel) => match msg.get("ts") {
            Some(ts) => whole_field(ts),
            None => match msg.get("data") {
                Some(data) => if same_text(&chars_of(channel), &chars_of("push.kline")) {
                    if !data.is_object() {
                        Err(MessageError::BadField)
                    } else {
                        match data.get("tdt") {
                            Some(tdt) => whole_field(tdt),
                            None => in_millis(data.i64_at("t"), 1000),
                        }
                    }
                } else {
                    data_time(data)
                },
                None => Err(MessageError::BadField),
            },
        },
        None => Err(MessageError::BadField),
    }
}

/// The time of a message, where it has one.
pub fn extract_timestamp(msg: &Json) -> (r: Result<Option<i64>, MessageError>)
    ensures
        r == timestamp_of(*msg),
{
    match msg {
        Json::Array(items) => list_time(items),
        Json::Object(_) => if msg.contains_key("code") && msg.contains_key("data") {
            rest_time(msg)
        } else {
            stream_time(msg)
        },
        _ => Err(MessageError::UnknownFormat),
    }
}

/// The level that a trade or the best levels of the spot stream write,
/// price and quantity in base coins.
pub fn read_spot_level(price: &str, quantity: &str) -> (r: Result<Order, MessageError>)
    ensures
        r == read_plain_order(price@, quantity@, MarketKind::Spot),
{
    Order::read_plain(price, quantity, MarketKind::Spot)
}

/// The level that the spot order book writes: price, base quantity and
/// quote quantity, as the exchange reports them.
pub fn read_spot_order(price: &str, quantity_base: &str, quantity_quote: &str) -> (r: Result<
    Order,
    MessageError,
>)
    ensures
        r == read_reported_order(price@, quantity_base@, quantity_quote@),
{
    Order::read_reported(price, quantity_base, quantity_quote)
}

/// The level that a trade or an order book of the contract stream writes:
/// it counts sizes in contracts.
pub fn read_swap_level(
    registry: &ContractSpecRegistry,
    market_kind: MarketKind,
    pair: &str,
    price: &str,
    raw_size: &str,
) -> (r: Result<Order, MessageError>)
    requires
        registry.wf(),
    ensures
        r == read_computed_order(registry@, "mexc"@, market_kind, pair@, price@, raw_size@),
{
    Order::read_computed(registry, "mexc", market_kind, pair, price, raw_size)
}

/// The volumes that a candlestick of the contract stream writes, a number
/// of contracts and a quote volume, with the multiplier that the registry
/// holds for the pair.
pub open spec fn read_swap_volumes_of(
    tables: Tables,
    kind: MarketKind,
    pair: Seq<char>,
    contracts: Seq<char>,
    quote_volume: Seq<char>,
) -> Result<Volumes, MessageError> {
    match (parsed(contracts), parsed(quote_volume)) {
        (Some(a), Some(b)) => match swap_volumes_of(
            kind,
            a,
            b,
            contract_value(tables, "mexc"@, kind, pair),
        ) {
            Ok(volumes) => Ok(volumes),
            Err(e) => Err(MessageError::Quantity(e)),
        },
        _ => Err(MessageError::BadField),
    }
}

/// The volumes that a candlestick of the contract stream writes.
pub fn read_swap_volumes(
    registry: &ContractSpecRegistry,
    market_kind: MarketKind,
    pair: &str,
    contracts: &str,
    quote_volume: &str,
) -> (r: Result<Volumes, MessageError>)
    ensures
        r == read_swap_volumes_of(registry@, market_kind, pair@, contracts@, quote_volume@),
{
    match (parse_decimal(contracts), parse_decimal(quote_volume)) {
        (Some(a), Some(b)) => match swap_volumes(
            market_kind,
            a,
            b,
            registry.get("mexc", pair, market_kind),
        ) {
            Ok(volumes) => Ok(volumes),
            Err(e) => Err(MessageError::Quantity(e)),
        },
        _ => Err(MessageError::BadField),
    }
}

} // verus!

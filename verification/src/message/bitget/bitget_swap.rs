//! The stream before 2022-04-29.
//!
//! A message names its channel in `table`, as `swap/trade`, and carries its
//! items in `data`; each item names its instrument in `instrument_id`.

use crate::amount::Amount;
use crate::contract_value::registry::{contract_value, ContractSpecRegistry, Tables};
use crate::decimal::{parse_decimal, parsed};
use crate::message::order::{read_computed_order, Order};
use crate::market::MarketKind;
use crate::message::candle::{swap_volumes, swap_volumes_of, Volumes};
use crate::message::json::{read_all, read_each, text_of_each, texts, texts_at, Json, Reading};
use crate::quantity::QuantityError;
use crate::message::number::{i64_of, latest, latest_of, parse_i64};
use crate::message::types::{text_result, MessageError, MessageType};
use crate::text::{
    chars_of, has_prefix, is_ascii, is_digit, nth_piece, piece, same_text, starts_with,
    string_of,
};
use vstd::prelude::*;

verus! {

/// Whether a message has the shape of the stream: a table, data, and no
/// action or one that is a text.
pub open spec fn has_shape(msg: Json) -> bool {
    &&& msg.text_of("table"@) is Some
    &&& msg.has("data"@)
    &&& match msg.field("action"@) {
        None => true,
        Some(Json::Null) => true,
        Some(Json::Text(_)) => true,
        _ => false,
    }
}

/// The symbol that a message is about: the instrument of the first of its
/// items, or of its only item.
pub open spec fn symbol_of(msg: Json) -> Result<Seq<char>, MessageError> {
    if !has_shape(msg) {
        Err(MessageError::BadShape)
    } else {
        match msg.at("data"@) {
            Json::Array(items) => match text_of_each(items@, "instrument_id"@) {
                Some(ids) => if ids.len() == 0 {
                    Err(MessageError::EmptyData)
                } else {
                    Ok(ids[0])
                },
                None => Err(MessageError::BadField),
            },
            Json::Object(_) => match msg.at("data"@).field("instrument_id"@) {
                Some(id) => match id.text() {
                    Some(id) => Ok(id),
                    None => Err(MessageError::BadField),
                },
                None => Err(MessageError::UnknownFormat),
            },
            _ => Err(MessageError::UnknownFormat),
        }
    }
}

/// The time that a candlestick writes: a text in the first place of its
/// field `candle`.
pub open spec fn candle_time(data: Json) -> Option<i64> {
    match data.items_of("candle"@) {
        Some(places) => if places.len() > 0 {
            match places[0].text() {
                Some(text) => i64_of(text),
                None => None,
            }
        } else {
            None
        },
        None => None,
    }
}

/// The time of a message: that of its candlestick, or the latest of the
/// times of its items, of which there is at least one.
pub open spec fn timestamp_of(msg: Json) -> Result<Option<i64>, MessageError> {
    if !has_shape(msg) {
        Err(MessageError::BadShape)
    } else if starts_with(msg.text_of("table"@).unwrap(), "swap/candle"@) {
        match candle_time(msg.at("data"@)) {
            Some(t) => Ok(Some(t)),
            None => Err(MessageError::BadField),
        }
    } else {
        match msg.at("data"@).items() {
            Some(items) => match read_each(items, Reading::Number("timestamp")) {
                Some(times) => if times.len() == 0 {
                    Err(MessageError::EmptyData)
                } else {
                    Ok(latest_of(times))
                },
                None => Err(MessageError::BadField),
            },
            None => Err(MessageError::BadField),
        }
    }
}

/// What a table of the stream before 2022-04-29 is about. The channel is
/// the second part of the table's name, as `trade` in `swap/trade`.
pub open spec fn table_type(table: Seq<char>) -> MessageType {
    match piece(table, '/', 1) {
        Some(channel) => if channel == "trade"@ {
            MessageType::Trade
        } else if channel == "depth"@ {
            MessageType::L2Event
        } else if channel == "depth5"@ {
            MessageType::L2TopK
        } else if channel == "ticker"@ {
            MessageType::Ticker
        } else if starts_with(channel, "candle"@) {
            MessageType::Candlestick
        } else if channel == "funding_rate"@ {
            MessageType::FundingRate
        } else {
            MessageType::Other
        },
        None => MessageType::Other,
    }
}

/// What a message is about, by the table it names.
pub open spec fn msg_type_of(msg: Json) -> MessageType {
    if has_shape(msg) {
        table_type(msg.text_of("table"@).unwrap())
    } else {
        MessageType::Other
    }
}

fn shaped(msg: &Json) -> (r: bool)
    ensures
        r == has_shape(*msg),
{
    if msg.str_at("table").is_none() || !msg.contains_key("data") {
        return false;
    }
    match msg.get("action") {
        None => true,
        Some(Json::Null) => true,
        Some(Json::Text(_)) => true,
        _ => false,
    }
}

fn table_msg_type(table: &Vec<char>) -> (r: MessageType)
    ensures
        r == table_type(table@),
{
    match nth_piece(table, '/', 1) {
        Some(channel) => if same_text(&channel, &chars_of("trade")) {
            MessageType::Trade
        } else if same_text(&channel, &chars_of("depth")) {
            MessageType::L2Event
        } else if same_text(&channel, &chars_of("depth5")) {
            MessageType::L2TopK
        } else if same_text(&channel, &chars_of("ticker")) {
            MessageType::Ticker
        } else if has_prefix(&channel, "candle") {
            MessageType::Candlestick
        } else if same_text(&channel, &chars_of("funding_rate")) {
            MessageType::FundingRate
        } else {
            MessageType::Other
        },
        None => MessageType::Other,
    }
}

/// The symbol that a message is about.
pub fn extract_symbol(msg: &Json) -> (r: Result<String, MessageError>)
    ensures
        text_result(r) == symbol_of(*msg),
{
    if !shaped(msg) {
        return Err(MessageError::BadShape);
    }
    match msg.get("data") {
        Some(data) => match data {
            Json::Array(items) => match texts_at(items, "instrument_id") {
                Some(ids) => if ids.len() == 0 {
                    Err(MessageError::EmptyData)
                } else {
                    assert(texts(ids@)[0] == ids[0]@);
                    Ok(ids[0].clone())
                },
                None => Err(MessageError::BadField),
            },
            Json::Object(_) => match data.get("instrument_id") {
                Some(id) => match id.as_str() {
                    Some(id) => Ok(string_of(&chars_of(id))),
                    None => Err(MessageError::BadField),
                },
                None => Err(MessageError::UnknownFormat),
            },
            _ => Err(MessageError::UnknownFormat),
        },
        None => Err(MessageError::BadShape),
    }
}

fn time_of_candle(data: &Json) -> (r: Option<i64>)
    ensures
        r == candle_time(*data),
{
    match data.array_at("candle") {
        Some(places) => if places.len() > 0 {
            match places[0].as_str() {
                Some(text) => parse_i64(text),
                None => None,
            }
        } else {
            None
        },
        None => None,
    }
}

/// The time of a message.
pub fn extract_timestamp(msg: &Json) -> (r: Result<Option<i64>, MessageError>)
    ensures
        r == timestamp_of(*msg),
{
    if !shaped(msg) {
        return Err(MessageError::BadShape);
    }
    match (msg.str_at("table"), msg.get("data")) {
        (Some(table), Some(data)) => if has_prefix(&chars_of(table), "swap/candle") {
            match time_of_candle(data) {
                Some(t) => Ok(Some(t)),
                None => Err(MessageError::BadField),
            }
        } else {
            match data.as_array() {
                Some(items) => match read_all(items, &Reading::Number("timestamp")) {
                    Some(times) => if times.len() == 0 {
                        Err(MessageError::EmptyData)
                    } else {
                        Ok(latest(&times))
                    },
                    None => Err(MessageError::BadField),
                },
                None => Err(MessageError::BadField),
            }
        },
        _ => Err(MessageError::BadShape),
    }
}

/// What a message is about, by the table it names.
pub fn get_msg_type(msg: &Json) -> (r: MessageType)
    ensures
        r == msg_type_of(*msg),
{
    if !shaped(msg) {
        return MessageType::Other;
    }
    match msg.str_at("table") {
        Some(table) => table_msg_type(&chars_of(table)),
        None => MessageType::Other,
    }
}

/// The volumes of a candlestick, of which `sixth` and `seventh` are the
/// last two places. On an inverse swap the seventh place is the volume and
/// the sixth the quote volume; on a linear swap the sixth place counts
/// contracts and the seventh is the quote volume.
pub open spec fn candle_volumes_of(
    kind: MarketKind,
    sixth: Amount,
    seventh: Amount,
    multiplier: Option<Amount>,
) -> Result<Volumes, QuantityError> {
    match kind {
        MarketKind::InverseSwap => swap_volumes_of(kind, seventh, sixth, multiplier),
        _ => swap_volumes_of(kind, sixth, seventh, multiplier),
    }
}

/// The volumes of a candlestick, of which `sixth` and `seventh` are the
/// last two places.
pub fn candle_volumes(
    market_kind: MarketKind,
    sixth: Amount,
    seventh: Amount,
    multiplier: Option<Amount>,
) -> (r: Result<Volumes, QuantityError>)
    ensures
        r == candle_volumes_of(market_kind, sixth, seventh, multiplier),
{
    match market_kind {
        MarketKind::InverseSwap => swap_volumes(market_kind, seventh, sixth, multiplier),
        _ => swap_volumes(market_kind, sixth, seventh, multiplier),
    }
}

/// Whether `c` is numeric, as `char::is_numeric` tells.
pub uninterp spec fn numeric(c: char) -> bool;

/// Calls `char::is_numeric`, which depends on its argument alone. The
/// result is [`numeric`] of the argument.
#[verifier::external_body]
fn is_numeric(c: char) -> (r: bool)
    ensures
        r == numeric(c),
{
    c.is_numeric()
}

/// Whether `c` writes a number: of the ASCII characters the digits do; any
/// other character does where `char::is_numeric` says so.
pub open spec fn writes_number(c: char) -> bool {
    if is_ascii(c) {
        is_digit(c)
    } else {
        numeric(c)
    }
}

/// Whether a table of the stream before 2022-04-29 sends the best levels
/// of the order book: its name begins with `swap/depth` and ends with a
/// number.
pub open spec fn is_top_levels(table: Seq<char>) -> bool {
    starts_with(table, "swap/depth"@) && table.len() > 0 && writes_number(table.last())
}

fn number_char(c: char) -> (r: bool)
    ensures
        r == writes_number(c),
{
    let code: u32 = c as u32;
    if code < 128 {
        '0' <= c && c <= '9'
    } else {
        is_numeric(c)
    }
}

/// Whether an order book message is a snapshot, and what it is about. A
/// message that names its action is a snapshot where the action is
/// `partial`; one that names none is a snapshot where it sends the best
/// levels.
pub open spec fn book_flags_of(table: Seq<char>, action: Option<Seq<char>>) -> (bool, MessageType) {
    (
        match action {
            Some(action) => action == "partial"@,
            None => is_top_levels(table),
        },
        if is_top_levels(table) {
            MessageType::L2TopK
        } else {
            MessageType::L2Event
        },
    )
}

/// Whether an order book message of the stream before 2022-04-29 is a
/// snapshot, and what it is about.
pub fn book_flags(table: &str, action: Option<&str>) -> (r: (bool, MessageType))
    ensures
        r == book_flags_of(
            table@,
            match action {
                Some(a) => Some(a@),
                None => None,
            },
        ),
{
    let t = chars_of(table);
    let top = has_prefix(&t, "swap/depth") && t.len() > 0 && number_char(t[t.len() - 1]);
    let snapshot = match action {
        Some(action) => same_text(&chars_of(action), &chars_of("partial")),
        None => top,
    };
    (
        snapshot,
        if top {
            MessageType::L2TopK
        } else {
            MessageType::L2Event
        },
    )
}

/// The level that a trade or an order book of the stream before 2022-04-29
/// writes: it counts sizes in contracts.
pub fn read_level(
    registry: &ContractSpecRegistry,
    market_kind: MarketKind,
    pair: &str,
    price: &str,
    raw_size: &str,
) -> (r: Result<Order, MessageError>)
    requires
        registry.wf(),
    ensures
        r == read_computed_order(registry@, "bitget"@, market_kind, pair@, price@, raw_size@),
{
    Order::read_computed(registry, "bitget", market_kind, pair, price, raw_size)
}

/// The volumes that the last two places of a candlestick write, with the
/// multiplier that the registry holds for the pair.
pub open spec fn read_candle_volumes_of(
    tables: Tables,
    kind: MarketKind,
    pair: Seq<char>,
    sixth: Seq<char>,
    seventh: Seq<char>,
) -> Result<Volumes, MessageError> {
    match (parsed(sixth), parsed(seventh)) {
        (Some(a), Some(b)) => match candle_volumes_of(
            kind,
            a,
            b,
            contract_value(tables, "bitget"@, kind, pair),
        ) {
            Ok(volumes) => Ok(volumes),
            Err(e) => Err(MessageError::Quantity(e)),
        },
        _ => Err(MessageError::BadField),
    }
}

/// The volumes that the last two places of a candlestick write.
pub fn read_candle_volumes(
    registry: &ContractSpecRegistry,
    market_kind: MarketKind,
    pair: &str,
    sixth: &str,
    seventh: &str,
) -> (r: Result<Volumes, MessageError>)
    ensures
        r == read_candle_volumes_of(registry@, market_kind, pair@, sixth@, seventh@),
{
    match (parse_decimal(sixth), parse_decimal(seventh)) {
        (Some(a), Some(b)) => match candle_volumes(
            market_kind,
            a,
            b,
            registry.get("bitget", pair, market_kind),
        ) {
            Ok(volumes) => Ok(volumes),
            Err(e) => Err(MessageError::Quantity(e)),
        },
        _ => Err(MessageError::BadField),
    }
}

} // verus!

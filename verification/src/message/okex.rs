//! OKEx messages.

use crate::contract_value::registry::ContractSpecRegistry;
use crate::market::MarketKind;
use crate::message::json::{text_of_each, texts, texts_at, Json};
use crate::message::order::{read_computed_order, Order};
use crate::message::number::{latest, latest_of};
use crate::message::types::{text_result, MessageError, MessageType};
use crate::text::{chars_of, nth_piece, piece, same_text};
use chrono::DateTime;
use vstd::prelude::*;

verus! {

/// The time in milliseconds since 1970 that a text in the format of RFC 3339
/// writes, as chrono reads it; `None` where chrono does not read the text.
pub uninterp spec fn rfc3339_millis(text: Seq<char>) -> Option<i64>;

/// Calls `DateTime::parse_from_rfc3339` and, on what it read,
/// `DateTime::timestamp_millis`. Both depend on the text alone.
#[verifier::external_body]
fn parse_rfc3339(text: &str) -> (r: Option<i64>)
    ensures
        r == rfc3339_millis(text@),
{
    match DateTime::parse_from_rfc3339(text) {
        Ok(time) => Some(time.timestamp_millis()),
        Err(_) => None,
    }
}

/// What a table is about. The channel is the second part of the table's
/// name, as `trade` in `spot/trade`.
pub open spec fn table_type(table: Seq<char>) -> MessageType {
    match piece(table, '/', 1) {
        Some(channel) => if channel == "trade"@ {
            MessageType::Trade
        } else if channel == "depth_l2_tbt"@ {
            MessageType::L2Event
        } else if channel == "depth5"@ {
            MessageType::L2TopK
        } else if channel == "ticker"@ {
            MessageType::BBO
        } else if channel == "candle"@ {
            MessageType::Candlestick
        } else if channel == "funding_rate"@ {
            MessageType::FundingRate
        } else {
            MessageType::Other
        },
        None => MessageType::Other,
    }
}

/// Whether a message has the shape of the stream: a table, a list of
/// items, and no action or one that is a text.
pub open spec fn has_shape(msg: Json) -> bool {
    &&& msg.text_of("table"@) is Some
    &&& msg.items_of("data"@) is Some
    &&& match msg.field("action"@) {
        None => true,
        Some(Json::Null) => true,
        Some(Json::Text(_)) => true,
        _ => false,
    }
}

/// What a message is about, by the table it names.
pub open spec fn msg_type_of(msg: Json) -> MessageType {
    if has_shape(msg) {
        table_type(msg.text_of("table"@).unwrap())
    } else {
        MessageType::Other
    }
}

/// The symbol that a message is about: the instrument of the first of its
/// items.
pub open spec fn symbol_of(msg: Json) -> Result<Seq<char>, MessageError> {
    if !has_shape(msg) {
        Err(MessageError::BadShape)
    } else {
        match text_of_each(msg.items_of("data"@).unwrap(), "instrument_id"@) {
            Some(ids) => if ids.len() == 0 {
                Err(MessageError::EmptyData)
            } else {
                Ok(ids[0])
            },
            None => Err(MessageError::BadField),
        }
    }
}

/// The times that the texts write, if each of them writes one.
pub open spec fn times_of(stamps: Seq<Seq<char>>) -> Option<Seq<i64>>
    decreases stamps.len(),
{
    if stamps.len() == 0 {
        Some(Seq::empty())
    } else {
        match (times_of(stamps.drop_last()), rfc3339_millis(stamps.last())) {
            (Some(times), Some(t)) => Some(times.push(t)),
            _ => None,
        }
    }
}

/// The latest of the times that the texts write, of which there is at
/// least one.
pub open spec fn latest_stamp(stamps: Seq<Seq<char>>) -> Result<Option<i64>, MessageError> {
    match times_of(stamps) {
        Some(times) => if times.len() == 0 {
            Err(MessageError::EmptyData)
        } else {
            Ok(latest_of(times))
        },
        None => Err(MessageError::BadField),
    }
}

/// The time of a message: the latest of the times of its items, each
/// written in the format of RFC 3339.
pub open spec fn timestamp_of(msg: Json) -> Result<Option<i64>, MessageError> {
    if !has_shape(msg) {
        Err(MessageError::BadShape)
    } else {
        match text_of_each(msg.items_of("data"@).unwrap(), "timestamp"@) {
            Some(stamps) => latest_stamp(stamps),
            None => Err(MessageError::BadField),
        }
    }
}

/// Texts of which a beginning cannot be read cannot be read.
pub proof fn lemma_times_of_prefix(stamps: Seq<Seq<char>>, n: int)
    requires
        0 <= n <= stamps.len(),
        times_of(stamps.take(n)) is None,
    ensures
        times_of(stamps) is None,
    decreases stamps.len() - n,
{
    if n == stamps.len() {
        assert(stamps.take(n) =~= stamps);
    } else {
        assert(stamps.take(n + 1).drop_last() =~= stamps.take(n));
        lemma_times_of_prefix(stamps, n + 1);
    }
}

fn shaped(msg: &Json) -> (r: bool)
    ensures
        r == has_shape(*msg),
{
    if msg.str_at("table").is_none() || msg.array_at("data").is_none() {
        return false;
    }
    match msg.get("action") {
        None => true,
        Some(Json::Null) => true,
        Some(Json::Text(_)) => true,
        _ => false,
    }
}

fn table_msg_type(table: &str) -> (r: MessageType)
    ensures
        r == table_type(table@),
{
    match nth_piece(&chars_of(table), '/', 1) {
        Some(channel) => if same_text(&channel, &chars_of("trade")) {
            MessageType::Trade
        } else if same_text(&channel, &chars_of("depth_l2_tbt")) {
            MessageType::L2Event
        } else if same_text(&channel, &chars_of("depth5")) {
            MessageType::L2TopK
        } else if same_text(&channel, &chars_of("ticker")) {
            MessageType::BBO
        } else if same_text(&channel, &chars_of("candle")) {
            MessageType::Candlestick
        } else if same_text(&channel, &chars_of("funding_rate")) {
            MessageType::FundingRate
        } else {
            MessageType::Other
        },
        None => MessageType::Other,
    }
}

/// What a message is about, by the table it names.
pub fn get_msg_type(msg: &Json) -> (r: MessageType)
    ensures
        r == msg_type_of(*msg),
{
    if !shaped(msg) {
        return MessageType::Other;
    }
    match msg.str_at("table") {
        Some(table) => table_msg_type(table),
        None => MessageType::Other,
    }
}

/// The symbol that a message is about.
pub fn extract_symbol(msg: &Json) -> (r: Result<String, MessageError>)
    ensures
        text_result(r) == symbol_of(*msg),
{
    if !shaped(msg) {
        return Err(MessageError::BadShape);
    }
    match msg.array_at("data") {
        Some(items) => match texts_at(items, "instrument_id") {
            Some(ids) => if ids.len() == 0 {
                Err(MessageError::EmptyData)
            } else {
                assert(texts(ids@)[0] == ids[0]@);
                Ok(ids[0].clone())
            },
            None => Err(MessageError::BadField),
        },
        None => Err(MessageError::BadShape),
    }
}

/// The latest of the times that the texts write, each in the format of
/// RFC 3339. An error where there is no text, or where one writes no time.
pub fn latest_time(stamps: &Vec<String>) -> (r: Result<Option<i64>, MessageError>)
    ensures
        r == latest_stamp(texts(stamps@)),
{
    let mut times: Vec<i64> = Vec::new();
    let mut i: usize = 0;
    let ghost all = texts(stamps@);
    while i < stamps.len()
        invariant
            i <= stamps.len(),
            all == texts(stamps@),
            times_of(all.take(i as int)) == Some(times@),
        decreases stamps.len() - i,
    {
        proof {
            assert(all.take(i + 1).drop_last() =~= all.take(i as int));
            assert(all.take(i + 1).last() == stamps[i as int]@);
        }
        match parse_rfc3339(stamps[i].as_str()) {
            Some(t) => {
                times.push(t);
            },
            None => {
                proof {
                    lemma_times_of_prefix(all, i + 1);
                }
                return Err(MessageError::BadField);
            },
        }
        i += 1;
    }
    assert(all.take(i as int) =~= all);
    if times.len() == 0 {
        Err(MessageError::EmptyData)
    } else {
        Ok(latest(&times))
    }
}

/// The time of a message.
pub fn extract_timestamp(msg: &Json) -> (r: Result<Option<i64>, MessageError>)
    ensures
        r == timestamp_of(*msg),
{
    if !shaped(msg) {
        return Err(MessageError::BadShape);
    }
    match msg.array_at("data") {
        Some(items) => match texts_at(items, "timestamp") {
            Some(stamps) => latest_time(&stamps),
            None => Err(MessageError::BadField),
        },
        None => Err(MessageError::BadShape),
    }
}

/// The size of a trade: its `qty` where it has one, else its `size`.
pub fn trade_size(qty: Option<String>, size: Option<String>) -> (r: Result<String, MessageError>)
    ensures
        r == (match (qty, size) {
            (Some(qty), _) => Ok::<_, MessageError>(qty),
            (None, Some(size)) => Ok(size),
            (None, None) => Err(MessageError::BadField),
        }),
{
    match (qty, size) {
        (Some(qty), _) => Ok(qty),
        (None, Some(size)) => Ok(size),
        (None, None) => Err(MessageError::BadField),
    }
}

/// Whether an order book message is a snapshot: its action is `partial`.
pub fn is_snapshot(action: &str) -> (r: bool)
    ensures
        r == (action@ == "partial"@),
{
    same_text(&chars_of(action), &chars_of("partial"))
}

/// The level that a trade or an order book writes: sizes are counted as
/// the market does, contracts on a contract market.
pub fn read_level(
    registry: &ContractSpecRegistry,
    market_kind: MarketKind,
    pair: &str,
    price: &str,
    raw_size: &str,
) -> (r: Result<Order, MessageError>)
    requires
        registry.wf(),
    ensures
        r == read_computed_order(registry@, "okex"@, market_kind, pair@, price@, raw_size@),
{
    Order::read_computed(registry, "okex", market_kind, pair, price, raw_size)
}

} // verus!

//! The stream since 2022-04-29.
//!
//! A message names its instrument in `arg`, by the type of the instrument
//! (`sp` for spot, `mc` for contracts), the channel and the instrument's id,
//! and carries a list of items in `data`.

use crate::contract_value::registry::ContractSpecRegistry;
use crate::market::MarketKind;
use crate::message::order::{read_computed_order, read_plain_order, Order};
use crate::message::json::Json;
use crate::message::number::{i64_of, latest, latest_of, parse_i64};
use crate::message::period::{fit_i64, scale, scaled};
use crate::message::types::{text_result, MessageError};
use crate::text::{
    chars_of, ends_with, has_prefix, has_suffix, joined, same_text, slice, starts_with,
    string_of, strip_prefix,
};
use vstd::prelude::*;

verus! {

/// The market kind and the symbol of an instrument of the stream since
/// 2022-04-29: `sp` is the spot market; on `mc`, the contract market, an
/// instrument in USDT is a linear swap and one in USD an inverse swap.
pub open spec fn market_and_symbol(inst_type: Seq<char>, inst_id: Seq<char>) -> Option<
    (MarketKind, Seq<char>),
> {
    if inst_type == "sp"@ {
        Some((MarketKind::Spot, inst_id + "_SPBL"@))
    } else if inst_type == "mc"@ {
        if ends_with(inst_id, "USDT"@) {
            Some((MarketKind::LinearSwap, inst_id + "_UMCBL"@))
        } else if ends_with(inst_id, "USD"@) {
            Some((MarketKind::InverseSwap, inst_id + "_DMCBL"@))
        } else {
            None
        }
    } else {
        None
    }
}

/// The symbol of an instrument of the stream since 2022-04-29.
pub open spec fn symbol_of(inst_type: Seq<char>, inst_id: Seq<char>) -> Result<
    Seq<char>,
    MessageError,
> {
    if inst_type == "sp"@ {
        Ok(inst_id + "_SPBL"@)
    } else if inst_type == "mc"@ {
        if ends_with(inst_id, "USDT"@) {
            Ok(inst_id + "_UMCBL"@)
        } else {
            Ok(inst_id + "_DMCBL"@)
        }
    } else {
        Err(MessageError::UnknownInstType)
    }
}

/// The market kind and the symbol of an instrument of the stream since
/// 2022-04-29. `None` where the instrument is of no known kind.
pub fn extract_market_type_and_symbol(inst_type: &str, inst_id: &str) -> (r: Option<
    (MarketKind, String),
>)
    ensures
        match r {
            Some((kind, symbol)) => market_and_symbol(inst_type@, inst_id@) == Some(
                (kind, symbol@),
            ),
            None => market_and_symbol(inst_type@, inst_id@) is None,
        },
{
    let kind = chars_of(inst_type);
    let id = chars_of(inst_id);
    if same_text(&kind, &chars_of("sp")) {
        Some((MarketKind::Spot, string_of(&joined(&id, &chars_of("_SPBL")))))
    } else if same_text(&kind, &chars_of("mc")) {
        if has_suffix(&id, "USDT") {
            Some((MarketKind::LinearSwap, string_of(&joined(&id, &chars_of("_UMCBL")))))
        } else if has_suffix(&id, "USD") {
            Some((MarketKind::InverseSwap, string_of(&joined(&id, &chars_of("_DMCBL")))))
        } else {
            None
        }
    } else {
        None
    }
}

/// The symbol of an instrument of the stream since 2022-04-29.
pub fn instrument_symbol(inst_type: &str, inst_id: &str) -> (r: Result<String, MessageError>)
    ensures
        text_result(r) == symbol_of(inst_type@, inst_id@),
{
    let kind = chars_of(inst_type);
    let id = chars_of(inst_id);
    if same_text(&kind, &chars_of("sp")) {
        Ok(string_of(&joined(&id, &chars_of("_SPBL"))))
    } else if same_text(&kind, &chars_of("mc")) {
        if has_suffix(&id, "USDT") {
            Ok(string_of(&joined(&id, &chars_of("_UMCBL"))))
        } else {
            Ok(string_of(&joined(&id, &chars_of("_DMCBL"))))
        }
    } else {
        Err(MessageError::UnknownInstType)
    }
}

/// Whether a message has the shape of the stream: an action, an `arg` that
/// names type, channel and id of the instrument, and a list of items.
pub open spec fn has_shape(msg: Json) -> bool {
    &&& msg.text_of("action"@) is Some
    &&& msg.at("arg"@).text_of("instType"@) is Some
    &&& msg.at("arg"@).text_of("channel"@) is Some
    &&& msg.at("arg"@).text_of("instId"@) is Some
    &&& msg.items_of("data"@) is Some
}

/// The symbol that a message is about.
pub open spec fn symbol_in(msg: Json) -> Result<Seq<char>, MessageError> {
    if has_shape(msg) {
        symbol_of(
            msg.at("arg"@).text_of("instType"@).unwrap(),
            msg.at("arg"@).text_of("instId"@).unwrap(),
        )
    } else {
        Err(MessageError::BadShape)
    }
}

/// The time that an item writes: in its first place where it is a list, in
/// its field `ts` or else `systemTime` where it is an object; as a text or
/// as a number.
pub open spec fn item_time(item: Json) -> Option<i64> {
    let written = match item {
        Json::Array(places) => if places.len() > 0 {
            Some(places[0])
        } else {
            None
        },
        Json::Object(_) => if item.has("ts"@) {
            item.field("ts"@)
        } else {
            item.field("systemTime"@)
        },
        _ => None,
    };
    match written {
        Some(Json::Text(text)) => i64_of(text@),
        Some(Json::Integer(n)) => Some(n),
        _ => None,
    }
}

/// The times that the items write, if each of them writes one.
pub open spec fn item_times(items: Seq<Json>) -> Option<Seq<i64>>
    decreases items.len(),
{
    if items.len() == 0 {
        Some(Seq::empty())
    } else {
        match (item_times(items.drop_last()), item_time(items.last())) {
            (Some(times), Some(t)) => Some(times.push(t)),
            _ => None,
        }
    }
}

/// The time of a message: the latest of the times of its items; none where
/// it has no items.
pub open spec fn timestamp_of(msg: Json) -> Result<Option<i64>, MessageError> {
    if has_shape(msg) {
        match item_times(msg.items_of("data"@).unwrap()) {
            Some(times) => Ok(latest_of(times)),
            None => Err(MessageError::BadField),
        }
    } else {
        Err(MessageError::BadShape)
    }
}

/// Items of which a beginning writes no time write no time.
pub proof fn lemma_item_times_prefix(items: Seq<Json>, n: int)
    requires
        0 <= n <= items.len(),
        item_times(items.take(n)) is None,
    ensures
        item_times(items) is None,
    decreases items.len() - n,
{
    if n == items.len() {
        assert(items.take(n) =~= items);
    } else {
        assert(items.take(n + 1).drop_last() =~= items.take(n));
        lemma_item_times_prefix(items, n + 1);
    }
}

fn shaped(msg: &Json) -> (r: bool)
    ensures
        r == has_shape(*msg),
{
    if msg.str_at("action").is_none() || msg.array_at("data").is_none() {
        return false;
    }
    match msg.get("arg") {
        Some(arg) => arg.str_at("instType").is_some() && arg.str_at("channel").is_some()
            && arg.str_at("instId").is_some(),
        None => false,
    }
}

fn time_of_item(item: &Json) -> (r: Option<i64>)
    ensures
        r == item_time(*item),
{
    let written = match item {
        Json::Array(places) => if places.len() > 0 {
            Some(&places[0])
        } else {
            None
        },
        Json::Object(_) => if item.contains_key("ts") {
            item.get("ts")
        } else {
            item.get("systemTime")
        },
        _ => None,
    };
    match written {
        Some(Json::Text(text)) => parse_i64(text.as_str()),
        Some(Json::Integer(n)) => Some(*n),
        _ => None,
    }
}

/// The symbol that a message is about.
pub fn extract_symbol(msg: &Json) -> (r: Result<String, MessageError>)
    ensures
        text_result(r) == symbol_in(*msg),
{
    if !shaped(msg) {
        return Err(MessageError::BadShape);
    }
    match msg.get("arg") {
        Some(arg) => match (arg.str_at("instType"), arg.str_at("instId")) {
            (Some(inst_type), Some(inst_id)) => instrument_symbol(inst_type, inst_id),
            _ => Err(MessageError::BadShape),
        },
        None => Err(MessageError::BadShape),
    }
}

/// The time of a message: the latest of the times of its items.
pub fn extract_timestamp(msg: &Json) -> (r: Result<Option<i64>, MessageError>)
    ensures
        r == timestamp_of(*msg),
{
    if !shaped(msg) {
        return Err(MessageError::BadShape);
    }
    match msg.array_at("data") {
        Some(items) => {
            let mut times: Vec<i64> = Vec::new();
            let mut i: usize = 0;
            while i < items.len()
                invariant
                    i <= items.len(),
                    has_shape(*msg),
                    msg.items_of("data"@) == Some(items@),
                    item_times(items@.take(i as int)) == Some(times@),
                decreases items.len() - i,
            {
                proof {
                    assert(items@.take(i + 1).drop_last() =~= items@.take(i as int));
                    assert(items@.take(i + 1).last() == items[i as int]);
                }
                match time_of_item(&items[i]) {
                    Some(t) => {
                        times.push(t);
                    },
                    None => {
                        proof {
                            lemma_item_times_prefix(items@, i + 1);
                        }
                        return Err(MessageError::BadField);
                    },
                }
                i += 1;
            }
            assert(items@.take(i as int) =~= items@);
            Ok(latest(&times))
        },
        None => Err(MessageError::BadShape),
    }
}

/// Whether an order book message is a snapshot: its action is `snapshot`.
pub fn is_snapshot(action: &str) -> (r: bool)
    ensures
        r == (action@ == "snapshot"@),
{
    same_text(&chars_of(action), &chars_of("snapshot"))
}

/// The length of a period in milliseconds: a count of seconds (`s`),
/// minutes (`m`) or days (`d`); nothing for any other unit.
pub open spec fn period_millis_of(period: Seq<char>) -> Option<int> {
    if period.len() == 0 {
        None
    } else if period.last() == 's' {
        scaled(period.drop_last(), 1000)
    } else if period.last() == 'm' {
        scaled(period.drop_last(), 60000)
    } else if period.last() == 'd' {
        scaled(period.drop_last(), 86400000)
    } else {
        Some(0)
    }
}

/// The length of a period in milliseconds. `None` where the period has no
/// count, or where the length does not fit.
pub fn period_millis(period: &str) -> (r: Option<i64>)
    ensures
        r == fit_i64(period_millis_of(period@)),
{
    let p = chars_of(period);
    if p.len() == 0 {
        return None;
    }
    let unit = p[p.len() - 1];
    let count = slice(&p, 0, p.len() - 1);
    assert(count@ =~= p@.drop_last());
    if unit == 's' {
        scale(&count, 1000)
    } else if unit == 'm' {
        scale(&count, 60000)
    } else if unit == 'd' {
        scale(&count, 86400000)
    } else {
        Some(0)
    }
}

/// The period of a candlestick channel: what follows `prefix` in its name.
pub fn channel_period(channel: &str, prefix: &str) -> (r: Option<String>)
    ensures
        match r {
            Some(p) => starts_with(channel@, prefix@) && p@ == strip_prefix(channel@, prefix@),
            None => !starts_with(channel@, prefix@),
        },
{
    let c = chars_of(channel);
    if has_prefix(&c, prefix) {
        let n = chars_of(prefix).len();
        let p = slice(&c, n, c.len());
        assert(p@ =~= strip_prefix(channel@, prefix@));
        Some(string_of(&p))
    } else {
        None
    }
}

/// The level that a trade or an order book of the stream writes: the
/// stream counts every size in base coins, on the contract markets too.
pub fn read_level(market_kind: MarketKind, price: &str, quantity: &str) -> (r: Result<
    Order,
    MessageError,
>)
    ensures
        r == read_plain_order(price@, quantity@, market_kind),
{
    Order::read_plain(price, quantity, market_kind)
}

/// The level that the response to a request for the order book writes: a
/// response counts sizes as the market does, contracts on a contract market.
pub fn read_snapshot_level(
    registry: &ContractSpecRegistry,
    market_kind: MarketKind,
    pair: &str,
    price: &str,
    raw_size: &str,
) -> (r: Result<Order, MessageError>)
    requires
        registry.wf(),
    ensures
        r == read_computed_order(registry@, "bitget"@, market_kind, pair@, price@, raw_size@),
{
    Order::read_computed(registry, "bitget", market_kind, pair, price, raw_size)
}

} // verus!

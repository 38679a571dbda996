//! Bitget messages.
//!
//! Bitget has spoken three protocols. A message of the stream before
//! 2022-04-29 names its channel in a field `table`, as `swap/trade`. A
//! message of the stream since then names instrument and channel in a field
//! `arg`. The response to a request carries a `code`, which is `00000` where
//! the request succeeded.

pub mod bitget_mix;
pub mod bitget_swap;

use crate::message::json::Json;
use crate::message::number::{i64_of, parse_i64};
use crate::message::types::{text_result, MessageError, MessageType};
use crate::text::{chars_of, has_prefix, same_text, starts_with, string_of};
use vstd::prelude::*;

verus! {

/// Which of its fields a message has.
#[derive(Clone, Copy, Debug, PartialEq, Eq, Hash, Structural)]
pub struct Keys {
    pub data: bool,
    pub table: bool,
    pub arg: bool,
    pub code: bool,
    pub msg: bool,
}

/// The protocol that a message speaks.
#[derive(Clone, Copy, Debug, PartialEq, Eq, Hash, Structural)]
pub enum Protocol {
    /// The stream before 2022-04-29.
    Before20220429,
    /// The stream since 2022-04-29.
    Mix,
    /// The response to a request.
    Rest,
}

/// The protocol by which the symbol of a message is found.
pub open spec fn symbol_protocol_of(keys: Keys) -> Result<Protocol, MessageError> {
    if !keys.data {
        Err(MessageError::NoData)
    } else if keys.table {
        Ok(Protocol::Before20220429)
    } else if keys.arg {
        Ok(Protocol::Mix)
    } else if keys.code && keys.msg {
        Ok(Protocol::Rest)
    } else {
        Err(MessageError::UnknownFormat)
    }
}

/// The protocol by which the time of a message is found.
pub open spec fn timestamp_protocol_of(keys: Keys) -> Result<Protocol, MessageError> {
    if !keys.data {
        Err(MessageError::NoData)
    } else if keys.table {
        Ok(Protocol::Before20220429)
    } else if keys.arg {
        Ok(Protocol::Mix)
    } else if keys.code {
        Ok(Protocol::Rest)
    } else {
        Err(MessageError::UnknownFormat)
    }
}

/// The protocol of a message of the stream, if it is one.
pub open spec fn stream_protocol_of(keys: Keys) -> Option<Protocol> {
    if keys.data && keys.table {
        Some(Protocol::Before20220429)
    } else if keys.data && keys.arg {
        Some(Protocol::Mix)
    } else {
        None
    }
}

/// The protocol by which the symbol of a message is found.
pub fn symbol_protocol(keys: Keys) -> (r: Result<Protocol, MessageError>)
    ensures
        r == symbol_protocol_of(keys),
{
    if !keys.data {
        Err(MessageError::NoData)
    } else if keys.table {
        Ok(Protocol::Before20220429)
    } else if keys.arg {
        Ok(Protocol::Mix)
    } else if keys.code && keys.msg {
        Ok(Protocol::Rest)
    } else {
        Err(MessageError::UnknownFormat)
    }
}

/// The protocol by which the time of a message is found.
pub fn timestamp_protocol(keys: Keys) -> (r: Result<Protocol, MessageError>)
    ensures
        r == timestamp_protocol_of(keys),
{
    if !keys.data {
        Err(MessageError::NoData)
    } else if keys.table {
        Ok(Protocol::Before20220429)
    } else if keys.arg {
        Ok(Protocol::Mix)
    } else if keys.code {
        Ok(Protocol::Rest)
    } else {
        Err(MessageError::UnknownFormat)
    }
}

/// The protocol of a message of the stream, if it is one.
pub fn stream_protocol(keys: Keys) -> (r: Option<Protocol>)
    ensures
        r == stream_protocol_of(keys),
{
    if keys.data && keys.table {
        Some(Protocol::Before20220429)
    } else if keys.data && keys.arg {
        Some(Protocol::Mix)
    } else {
        None
    }
}

/// Which of its fields a message has.
pub open spec fn keys_of(msg: Json) -> Keys {
    Keys {
        data: msg.has("data"@),
        table: msg.has("table"@),
        arg: msg.has("arg"@),
        code: msg.has("code"@),
        msg: msg.has("msg"@),
    }
}

/// Which of its fields a message has.
pub fn keys(msg: &Json) -> (r: Keys)
    ensures
        r == keys_of(*msg),
{
    Keys {
        data: msg.contains_key("data"),
        table: msg.contains_key("table"),
        arg: msg.contains_key("arg"),
        code: msg.contains_key("code"),
        msg: msg.contains_key("msg"),
    }
}

/// The symbol of a response: the one that its data names, `NONE` where it
/// names none; an error where the request failed.
pub open spec fn rest_symbol_of(msg: Json) -> Result<Seq<char>, MessageError> {
    match msg.text_of("code"@) {
        Some(code) => if code != "00000"@ {
            Err(MessageError::FailedResponse)
        } else {
            match msg.at("data"@).field("symbol"@) {
                Some(symbol) => match symbol.text() {
                    Some(symbol) => Ok(symbol),
                    None => Err(MessageError::BadField),
                },
                None => Ok("NONE"@),
            }
        },
        None => Err(MessageError::BadField),
    }
}

/// The time of a response: the one that its data writes, if any; an error
/// where the request failed.
pub open spec fn rest_timestamp_of(msg: Json) -> Result<Option<i64>, MessageError> {
    match msg.text_of("code"@) {
        Some(code) => if code != "00000"@ {
            Err(MessageError::FailedResponse)
        } else {
            match msg.at("data"@).field("timestamp"@) {
                Some(time) => match time.text() {
                    Some(time) => match i64_of(time) {
                        Some(time) => Ok(Some(time)),
                        None => Err(MessageError::BadField),
                    },
                    None => Err(MessageError::BadField),
                },
                None => Ok(None),
            }
        },
        None => Err(MessageError::BadField),
    }
}

/// The symbol that a message is about.
pub open spec fn symbol_of(msg: Json) -> Result<Seq<char>, MessageError> {
    if !(msg is Object) {
        Err(MessageError::BadShape)
    } else {
        match symbol_protocol_of(keys_of(msg)) {
            Ok(Protocol::Before20220429) => bitget_swap::symbol_of(msg),
            Ok(Protocol::Mix) => bitget_mix::symbol_in(msg),
            Ok(Protocol::Rest) => rest_symbol_of(msg),
            Err(e) => Err(e),
        }
    }
}

/// The time of a message.
pub open spec fn timestamp_of(msg: Json) -> Result<Option<i64>, MessageError> {
    if !(msg is Object) {
        Err(MessageError::BadShape)
    } else {
        match timestamp_protocol_of(keys_of(msg)) {
            Ok(Protocol::Before20220429) => bitget_swap::timestamp_of(msg),
            Ok(Protocol::Mix) => bitget_mix::timestamp_of(msg),
            Ok(Protocol::Rest) => rest_timestamp_of(msg),
            Err(e) => Err(e),
        }
    }
}

/// What a channel of the stream since 2022-04-29 is about.
pub open spec fn channel_type(channel: Seq<char>) -> MessageType {
    if channel == "trade"@ {
        MessageType::Trade
    } else if channel == "books"@ {
        MessageType::L2Event
    } else if channel == "books5"@ || channel == "books15"@ {
        MessageType::L2TopK
    } else if channel == "ticker"@ {
        MessageType::Ticker
    } else if starts_with(channel, "candle"@) {
        MessageType::Candlestick
    } else {
        MessageType::Other
    }
}

/// What a message is about: by its table where it is of the stream before
/// 2022-04-29, by the channel of its `arg` where it is of the stream since
/// then; any other message is the response to a request for the order book.
pub open spec fn msg_type_of(msg: Json) -> MessageType {
    match stream_protocol_of(keys_of(msg)) {
        Some(Protocol::Before20220429) => bitget_swap::msg_type_of(msg),
        Some(_) => match msg.at("arg"@).text_of("channel"@) {
            Some(channel) => channel_type(channel),
            None => MessageType::Other,
        },
        None => if msg is Object {
            MessageType::L2Snapshot
        } else {
            MessageType::Other
        },
    }
}

fn channel_msg_type(channel: &Vec<char>) -> (r: MessageType)
    ensures
        r == channel_type(channel@),
{
    if same_text(channel, &chars_of("trade")) {
        MessageType::Trade
    } else if same_text(channel, &chars_of("books")) {
        MessageType::L2Event
    } else if same_text(channel, &chars_of("books5")) || same_text(channel, &chars_of("books15")) {
        MessageType::L2TopK
    } else if same_text(channel, &chars_of("ticker")) {
        MessageType::Ticker
    } else if has_prefix(channel, "candle") {
        MessageType::Candlestick
    } else {
        MessageType::Other
    }
}

fn rest_symbol(msg: &Json) -> (r: Result<String, MessageError>)
    ensures
        text_result(r) == rest_symbol_of(*msg),
{
    match msg.str_at("code") {
        Some(code) => if !same_text(&chars_of(code), &chars_of("00000")) {
            Err(MessageError::FailedResponse)
        } else {
            let symbol = match msg.get("data") {
                Some(data) => data.get("symbol"),
                None => None,
            };
            match symbol {
                Some(symbol) => match symbol.as_str() {
                    Some(symbol) => Ok(string_of(&chars_of(symbol))),
                    None => Err(MessageError::BadField),
                },
                None => Ok(string_of(&chars_of("NONE"))),
            }
        },
        None => Err(MessageError::BadField),
    }
}

fn rest_timestamp(msg: &Json) -> (r: Result<Option<i64>, MessageError>)
    ensures
        r == rest_timestamp_of(*msg),
{
    match msg.str_at("code") {
        Some(code) => if !same_text(&chars_of(code), &chars_of("00000")) {
            Err(MessageError::FailedResponse)
        } else {
            let time = match msg.get("data") {
                Some(data) => data.get("timestamp"),
                None => None,
            };
            match time {
                Some(time) => match time.as_str() {
                    Some(time) => match parse_i64(time) {
                        Some(time) => Ok(Some(time)),
                        None => Err(MessageError::BadField),
                    },
                    None => Err(MessageError::BadField),
                },
                None => Ok(None),
            }
        },
        None => Err(MessageError::BadField),
    }
}

/// The symbol that a message is about.
pub fn extract_symbol(msg: &Json) -> (r: Result<String, MessageError>)
    ensures
        text_result(r) == symbol_of(*msg),
{
    if !msg.is_object() {
        return Err(MessageError::BadShape);
    }
    match symbol_protocol(keys(msg)) {
        Ok(Protocol::Before20220429) => bitget_swap::extract_symbol(msg),
        Ok(Protocol::Mix) => bitget_mix::extract_symbol(msg),
        Ok(Protocol::Rest) => rest_symbol(msg),
        Err(e) => Err(e),
    }
}

/// The time of a message, where it has one.
pub fn extract_timestamp(msg: &Json) -> (r: Result<Option<i64>, MessageError>)
    ensures
        r == timestamp_of(*msg),
{
    if !msg.is_object() {
        return Err(MessageError::BadShape);
    }
    match timestamp_protocol(keys(msg)) {
        Ok(Protocol::Before20220429) => bitget_swap::extract_timestamp(msg),
        Ok(Protocol::Mix) => bitget_mix::extract_timestamp(msg),
        Ok(Protocol::Rest) => rest_timestamp(msg),
        Err(e) => Err(e),
    }
}

/// What a message is about.
pub fn get_msg_type(msg: &Json) -> (r: MessageType)
    ensures
        r == msg_type_of(*msg),
{
    match stream_protocol(keys(msg)) {
        Some(Protocol::Before20220429) => bitget_swap::get_msg_type(msg),
        Some(_) => {
            let channel = match msg.get("arg") {
                Some(arg) => arg.str_at("channel"),
                None => None,
            };
            match channel {
                Some(channel) => channel_msg_type(&chars_of(channel)),
                None => MessageType::Other,
            }
        },
        None => if msg.is_object() {
            MessageType::L2Snapshot
        } else {
            MessageType::Other
        },
    }
}

/// What a message of the best levels is: a snapshot, of the type `L2TopK`,
/// whatever the order books it was read from say of themselves.
pub fn top_levels_flags() -> (r: (bool, MessageType))
    ensures
        r == (true, MessageType::L2TopK),
{
    (true, MessageType::L2TopK)
}

} // verus!

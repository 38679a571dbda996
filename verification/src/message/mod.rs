//! What the messages of the exchanges say: the decisions that turn the raw
//! fields of a message into the fields of a canonical message.

pub mod binance;
pub mod bitget;
pub mod candle;
pub mod json;
pub mod mexc;
pub mod number;
pub mod okex;
pub mod order;
pub mod period;
pub mod types;
pub mod zb;

//! The symbol grammar of each exchange.

pub mod bitget;
pub mod bybit;
pub mod deribit;
pub mod kucoin;
pub mod mexc;
pub mod utils;
pub mod zb;
pub mod zbg;

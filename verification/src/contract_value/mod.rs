//! Contract multipliers: how much one contract of an instrument is worth.

pub mod bitget;
pub mod kucoin;
pub mod listing;
pub mod mexc;
pub mod registry;
pub mod table;
pub mod zbg;

//! Normalization of cryptocurrency market data: exchange symbols are parsed
//! into canonical `BASE/QUOTE` pairs with a market kind, contract multipliers
//! are looked up per exchange, and raw trade sizes are converted into base,
//! quote and contract quantities.

pub mod amount;
pub mod contract_value;
pub mod decimal;
pub mod exchanges;
pub mod market;
pub mod message;
pub mod pair;
pub mod quantity;
pub mod text;

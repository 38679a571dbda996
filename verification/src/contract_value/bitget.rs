//! Bitget contracts.
//!
//! An inverse swap is worth one quote coin. A linear swap has a multiplier
//! of its own.

use crate::amount::Amount;
use crate::contract_value::table::ContractTable;
use crate::market::MarketKind;
use vstd::prelude::*;

verus! {

/// The multipliers of the linear swaps, as Bitget listed them at one time.
pub const BASELINE: &'static str = "\
BCH/USDT 0.01\n\
BTC/USDT 0.001\n";

/// The multiplier of `pair` on a market of that kind: one for an inverse
/// swap, what `table` holds for a linear swap.
pub open spec fn value_of(table: Map<Seq<char>, Amount>, kind: MarketKind, pair: Seq<char>) -> Option<
    Amount,
> {
    match kind {
        MarketKind::InverseSwap => Some(Amount { num: 1, den: 1 }),
        MarketKind::LinearSwap => if table.contains_key(pair) {
            Some(table[pair])
        } else {
            None
        },
        _ => None,
    }
}

/// The multiplier of `pair` on a market of that kind.
pub fn get_contract_value(table: &ContractTable, market_type: MarketKind, pair: &str) -> (r:
    Option<Amount>)
    ensures
        r == value_of(table@, market_type, pair@),
{
    match market_type {
        MarketKind::InverseSwap => Some(Amount::whole(1)),
        MarketKind::LinearSwap => table.get(pair),
        _ => None,
    }
}

} // verus!

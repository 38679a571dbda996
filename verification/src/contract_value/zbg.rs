//! ZBG contracts. Every swap has a contract unit of its own, which ZBG
//! lists.

use crate::amount::Amount;
use crate::contract_value::listing::{contract_specs, entries, entries_of, listing_of, Listed};
use crate::contract_value::table::{ContractSpec, ContractTable};
use crate::market::MarketKind;
use crate::pair::{normal_pair, normalize_pair};
use crate::text::{chars_of, same_text};
use vstd::prelude::*;

verus! {

/// The contract units of the swaps, as ZBG listed them at one time.
pub const BASELINE: &'static str = "\
AXS/USDT 0.1\n\
BCH/USDT 0.1\n\
BSV/USDT 0.1\n\
BTC/USD 1\n\
BTC/USDT 0.01\n\
BTC/ZUSD 0.01\n\
DOGE/USDT 100\n\
DOT/USDT 1\n\
EOS/USDT 1\n\
ETC/USDT 1\n\
ETH/USD 1\n\
ETH/USDT 0.1\n\
FIL/USDT 0.1\n\
ICP/USDT 0.1\n\
LINK/USDT 1\n\
LTC/USDT 0.1\n\
RHI/ZUSD 0.01\n\
SUSHI/USDT 1\n\
UNI/USDT 0.1\n\
XRP/USDT 10\n";

/// One contract of ZBG's listing.
#[derive(Clone, Debug)]
pub struct SwapMarket {
    /// The symbol, as ZBG writes it.
    pub symbol: String,
    /// The contract unit, as a decimal number.
    pub contract_unit: String,
}

/// The contracts of a listing, in order, each with the canonical pair of
/// its symbol.
pub open spec fn listed_of(markets: Seq<SwapMarket>) -> Seq<(Option<Seq<char>>, Seq<char>)> {
    Seq::new(
        markets.len(),
        |i: int| (normal_pair(markets[i].symbol@, "zbg"@), markets[i].contract_unit@),
    )
}

/// The multiplier of `pair` on a market of that kind.
pub open spec fn value_of(table: Map<Seq<char>, Amount>, kind: MarketKind, pair: Seq<char>) -> Option<
    Amount,
> {
    match kind {
        MarketKind::InverseSwap | MarketKind::LinearSwap => if table.contains_key(pair) {
            Some(table[pair])
        } else {
            None
        },
        _ => None,
    }
}

/// The contracts that a response of ZBG lists: those it holds where its
/// code is `1`, none where it reports a failure.
pub fn swap_markets(code: &str, datas: Vec<SwapMarket>) -> (r: Vec<SwapMarket>)
    ensures
        r@ == (if code@ == "1"@ {
            datas@
        } else {
            Seq::empty()
        }),
{
    if same_text(&chars_of(code), &chars_of("1")) {
        datas
    } else {
        Vec::new()
    }
}

fn listed(markets: &Vec<SwapMarket>) -> (r: Vec<Listed>)
    ensures
        listing_of(r@) == listed_of(markets@),
{
    let mut r: Vec<Listed> = Vec::new();
    let mut i: usize = 0;
    while i < markets.len()
        invariant
            i <= markets.len(),
            r.len() == i,
            forall|j: int|
                0 <= j < i ==> (#[trigger] r[j])@ == (
                    normal_pair(markets[j].symbol@, "zbg"@),
                    markets[j].contract_unit@,
                ),
        decreases markets.len() - i,
    {
        r.push(
            Listed {
                pair: normalize_pair(markets[i].symbol.as_str(), "zbg"),
                multiplier: markets[i].contract_unit.clone(),
            },
        );
        i += 1;
    }
    assert(listing_of(r@) =~= listed_of(markets@));
    r
}

/// Reads the contract units off a listing. `None` where one of them cannot
/// be read.
pub fn contract_val(markets: &Vec<SwapMarket>) -> (r: Option<Vec<ContractSpec>>)
    ensures
        match r {
            Some(specs) => entries_of(listed_of(markets@)) == Some(entries(specs@)),
            None => entries_of(listed_of(markets@)) is None,
        },
        r matches Some(specs) ==> forall|i: int|
            0 <= i < specs.len() ==> (#[trigger] specs[i]).wf(),
{
    contract_specs(&listed(markets))
}

/// The multiplier of `pair` on a market of that kind.
pub fn get_contract_value(table: &ContractTable, market_type: MarketKind, pair: &str) -> (r:
    Option<Amount>)
    ensures
        r == value_of(table@, market_type, pair@),
{
    match market_type {
        MarketKind::InverseSwap | MarketKind::LinearSwap => table.get(pair),
        _ => None,
    }
}

} // verus!

//! The registry of contract multipliers.
//!
//! The registry holds one table for each exchange whose contracts have
//! multipliers of their own. A new registry holds the baseline of each
//! exchange. Warming an exchange up lays its live listing over the baseline,
//! once; where no live listing could be had, the baseline stays as it is.

use crate::amount::Amount;
use crate::contract_value::table::{
    all_positive, table_of, with_specs, ContractSpec, ContractTable,
};
use crate::contract_value::{bitget, kucoin, mexc, zbg};
use crate::market::MarketKind;
use crate::text::{chars_of, same_text};
use vstd::prelude::*;

verus! {

/// What a registry holds: the table of each exchange, and whether the
/// exchange has been warmed up.
pub struct Tables {
    pub bitget: Map<Seq<char>, Amount>,
    pub kucoin: Map<Seq<char>, Amount>,
    pub mexc: Map<Seq<char>, Amount>,
    pub zbg: Map<Seq<char>, Amount>,
    pub bitget_warm: bool,
    pub kucoin_warm: bool,
    pub mexc_warm: bool,
    pub zbg_warm: bool,
}

/// The tables of a new registry: the baseline of each exchange.
pub open spec fn baseline() -> Tables {
    Tables {
        bitget: table_of(bitget::BASELINE@),
        kucoin: table_of(kucoin::BASELINE@),
        mexc: table_of(mexc::BASELINE@),
        zbg: table_of(zbg::BASELINE@),
        bitget_warm: false,
        kucoin_warm: false,
        mexc_warm: false,
        zbg_warm: false,
    }
}

/// Whether a live listing can be laid over a table: it was had, and each of
/// its multipliers is above zero.
pub open spec fn usable(live: Option<Vec<ContractSpec>>) -> bool {
    live is Some && forall|i: int|
        0 <= i < live.unwrap()@.len() ==> (#[trigger] live.unwrap()@[i]).wf()
}

/// A table after warming up: the live listing laid over it where that is
/// usable, else the table as it was.
pub open spec fn refreshed(table: Map<Seq<char>, Amount>, live: Option<Vec<ContractSpec>>) -> Map<
    Seq<char>,
    Amount,
> {
    if usable(live) {
        with_specs(table, live.unwrap()@)
    } else {
        table
    }
}

/// The tables after warming up the exchange called `exchange` with `live`.
/// An exchange that is warm already, and one that the registry does not
/// know, change nothing.
pub open spec fn warmed(tables: Tables, exchange: Seq<char>, live: Option<Vec<ContractSpec>>) -> Tables {
    if exchange == "bitget"@ && !tables.bitget_warm {
        Tables { bitget: refreshed(tables.bitget, live), bitget_warm: true, ..tables }
    } else if exchange == "kucoin"@ && !tables.kucoin_warm {
        Tables { kucoin: refreshed(tables.kucoin, live), kucoin_warm: true, ..tables }
    } else if exchange == "mexc"@ && !tables.mexc_warm {
        Tables { mexc: refreshed(tables.mexc, live), mexc_warm: true, ..tables }
    } else if exchange == "zbg"@ && !tables.zbg_warm {
        Tables { zbg: refreshed(tables.zbg, live), zbg_warm: true, ..tables }
    } else {
        tables
    }
}

/// The multiplier of `pair` on a market of that kind of the exchange called
/// `exchange`.
pub open spec fn contract_value(
    tables: Tables,
    exchange: Seq<char>,
    kind: MarketKind,
    pair: Seq<char>,
) -> Option<Amount> {
    if exchange == "bitget"@ {
        bitget::value_of(tables.bitget, kind, pair)
    } else if exchange == "kucoin"@ {
        kucoin::value_of(tables.kucoin, kind, pair)
    } else if exchange == "mexc"@ {
        mexc::value_of(tables.mexc, kind, pair)
    } else if exchange == "zbg"@ {
        zbg::value_of(tables.zbg, kind, pair)
    } else {
        None
    }
}

/// The names of the exchanges differ from one another.
proof fn lemma_names_differ()
    ensures
        "bitget"@ != "kucoin"@,
        "bitget"@ != "mexc"@,
        "bitget"@ != "zbg"@,
        "kucoin"@ != "mexc"@,
        "kucoin"@ != "zbg"@,
        "mexc"@ != "zbg"@,
{
    reveal_strlit("bitget");
    reveal_strlit("kucoin");
    reveal_strlit("mexc");
    reveal_strlit("zbg");
    assert("kucoin"@.len() == 6 && "mexc"@.len() == 4 && "zbg"@.len() == 3);
    assert("bitget"@.len() == 6 && "bitget"@[0] == 'b' && "kucoin"@[0] == 'k');
}

/// The registry of contract multipliers.
pub struct ContractSpecRegistry {
    pub bitget: ContractTable,
    pub kucoin: ContractTable,
    pub mexc: ContractTable,
    pub zbg: ContractTable,
    pub bitget_warm: bool,
    pub kucoin_warm: bool,
    pub mexc_warm: bool,
    pub zbg_warm: bool,
}

impl View for ContractSpecRegistry {
    type V = Tables;

    open spec fn view(&self) -> Tables {
        Tables {
            bitget: self.bitget@,
            kucoin: self.kucoin@,
            mexc: self.mexc@,
            zbg: self.zbg@,
            bitget_warm: self.bitget_warm,
            kucoin_warm: self.kucoin_warm,
            mexc_warm: self.mexc_warm,
            zbg_warm: self.zbg_warm,
        }
    }
}

fn checked(live: &Option<Vec<ContractSpec>>) -> (r: bool)
    ensures
        r == usable(*live),
{
    match live {
        Some(specs) => {
            let mut i: usize = 0;
            while i < specs.len()
                invariant
                    i <= specs.len(),
                    *live == Some(*specs),
                    forall|j: int| 0 <= j < i ==> (#[trigger] specs[j]).wf(),
                decreases specs.len() - i,
            {
                if !specs[i].multiplier.is_positive() {
                    assert(!live.unwrap()@[i as int].wf());
                    return false;
                }
                i += 1;
            }
            true
        },
        None => false,
    }
}

fn refresh(table: &mut ContractTable, live: &Option<Vec<ContractSpec>>)
    requires
        old(table).wf(),
    ensures
        final(table)@ == refreshed(old(table)@, *live),
        final(table).wf(),
{
    if checked(live) {
        match live {
            Some(specs) => table.overlay(specs),
            None => {},
        }
    }
}

impl ContractSpecRegistry {
    /// Every multiplier of every table is above zero.
    pub open spec fn wf(&self) -> bool {
        all_positive(self.bitget@) && all_positive(self.kucoin@) && all_positive(self.mexc@)
            && all_positive(self.zbg@)
    }

    /// A registry that holds the baseline of each exchange.
    pub fn new() -> (r: ContractSpecRegistry)
        ensures
            r@ == baseline(),
            r.wf(),
    {
        ContractSpecRegistry {
            bitget: ContractTable::from_text(bitget::BASELINE),
            kucoin: ContractTable::from_text(kucoin::BASELINE),
            mexc: ContractTable::from_text(mexc::BASELINE),
            zbg: ContractTable::from_text(zbg::BASELINE),
            bitget_warm: false,
            kucoin_warm: false,
            mexc_warm: false,
            zbg_warm: false,
        }
    }

    /// Warms the exchange up: lays its live listing over its table. `live`
    /// is `None` where the listing could not be had; the table then stays as
    /// it is. Only the first call for an exchange does anything.
    pub fn warm_up(&mut self, exchange: &str, live: Option<Vec<ContractSpec>>)
        requires
            old(self).wf(),
        ensures
            final(self)@ == warmed(old(self)@, exchange@, live),
            final(self).wf(),
    {
        let name = chars_of(exchange);
        proof {
            lemma_names_differ();
        }
        if same_text(&name, &chars_of("bitget")) {
            if !self.bitget_warm {
                refresh(&mut self.bitget, &live);
                self.bitget_warm = true;
            }
        } else if same_text(&name, &chars_of("kucoin")) {
            if !self.kucoin_warm {
                refresh(&mut self.kucoin, &live);
                self.kucoin_warm = true;
            }
        } else if same_text(&name, &chars_of("mexc")) {
            if !self.mexc_warm {
                refresh(&mut self.mexc, &live);
                self.mexc_warm = true;
            }
        } else if same_text(&name, &chars_of("zbg")) {
            if !self.zbg_warm {
                refresh(&mut self.zbg, &live);
                self.zbg_warm = true;
            }
        }
    }

    /// The multiplier of `pair` on a market of that kind of `exchange`.
    /// `None` where the registry knows none.
    pub fn get(&self, exchange: &str, pair: &str, market_kind: MarketKind) -> (r: Option<Amount>)
        ensures
            r == contract_value(self@, exchange@, market_kind, pair@),
            self.wf() && r is Some ==> r.unwrap().positive(),
    {
        let name = chars_of(exchange);
        if same_text(&name, &chars_of("bitget")) {
            bitget::get_contract_value(&self.bitget, market_kind, pair)
        } else if same_text(&name, &chars_of("kucoin")) {
            kucoin::get_contract_value(&self.kucoin, market_kind, pair)
        } else if same_text(&name, &chars_of("mexc")) {
            mexc::get_contract_value(&self.mexc, market_kind, pair)
        } else if same_text(&name, &chars_of("zbg")) {
            zbg::get_contract_value(&self.zbg, market_kind, pair)
        } else {
            None
        }
    }
}

/// The multiplier of `pair` on a market of that kind of `exchange`, as the
/// registry knows it.
pub fn get_contract_value(
    registry: &ContractSpecRegistry,
    exchange: &str,
    market_kind: MarketKind,
    pair: &str,
) -> (r: Option<Amount>)
    ensures
        r == contract_value(registry@, exchange@, market_kind, pair@),
        registry.wf() && r is Some ==> r.unwrap().positive(),
{
    registry.get(exchange, pair, market_kind)
}

/// Where no live listing could be had, warming up changes no multiplier:
/// every pair keeps the value it had.
pub proof fn lemma_failed_fetch_keeps_values(
    tables: Tables,
    warming: Seq<char>,
    exchange: Seq<char>,
    kind: MarketKind,
    pair: Seq<char>,
)
    ensures
        contract_value(warmed(tables, warming, None), exchange, kind, pair) == contract_value(
            tables,
            exchange,
            kind,
            pair,
        ),
{
}

/// Warming up is idempotent: a second call for the same exchange changes
/// nothing, whatever listing it is given.
pub proof fn lemma_warm_up_once(
    tables: Tables,
    exchange: Seq<char>,
    first: Option<Vec<ContractSpec>>,
    second: Option<Vec<ContractSpec>>,
)
    ensures
        warmed(warmed(tables, exchange, first), exchange, second) == warmed(
            tables,
            exchange,
            first,
        ),
{
    lemma_names_differ();
}

} // verus!

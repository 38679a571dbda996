//! ZBG symbols: `BTC_USDT`, `BTC_ZUSD`. Base and quote stand on either side
//! of the underscore. Spot and swap symbols are written alike, so a symbol
//! does not tell its market kind.

use crate::market::MarketKind;
use crate::text::{
    after, before, chars_of, find_char, has_char, replace_char, replaced, slice, text_of,
    upper_pair, upper_paired,
};
use vstd::prelude::*;

verus! {

/// Base and quote that the symbol `s` names, as the symbol writes them, if
/// the grammar reads it: a symbol with an underscore has its base before the
/// first underscore and its quote after it.
pub open spec fn split_of(s: Seq<char>) -> Option<(Seq<char>, Seq<char>)> {
    if s.contains('_') {
        Some((before(s, '_'), replace_char(after(s, '_'), '_', '/')))
    } else {
        None
    }
}

/// The pair that the symbol `s` names, if the grammar reads it: base and
/// quote in upper case.
pub open spec fn pair_of(s: Seq<char>) -> Option<Seq<char>> {
    upper_pair(split_of(s))
}

/// The market kind that the symbol `s` names: none, whatever the symbol.
pub open spec fn kind_of(s: Seq<char>) -> MarketKind {
    MarketKind::Unknown
}

/// Base and quote that a symbol names, as the symbol writes them.
pub fn split(s: &Vec<char>) -> (r: Option<(Vec<char>, Vec<char>)>)
    ensures
        match r {
            Some((base, quote)) => split_of(s@) == Some((base@, quote@)),
            None => split_of(s@) is None,
        },
{
    if has_char(s, '_') {
        let first = find_char(s, '_');
        let base = slice(s, 0, first);
        let rest = slice(s, first + 1, s.len());
        assert(rest@ =~= after(s@, '_'));
        Some((base, replaced(&rest, '_', '/')))
    } else {
        None
    }
}

/// Reads a ZBG symbol into its pair, `BASE/QUOTE`.
pub fn normalize_pair(symbol: &str) -> (r: Option<String>)
    ensures
        text_of(r) == pair_of(symbol@),
{
    upper_paired(split(&chars_of(symbol)))
}

/// Reads the market kind off a ZBG symbol.
pub fn get_market_type(symbol: &str) -> (r: MarketKind)
    ensures
        r == kind_of(symbol@),
{
    MarketKind::Unknown
}

} // verus!

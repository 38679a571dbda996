//! ZB symbols: `btc_usdt` (spot) and `BTC_USDT` (linear swap); a symbol
//! without an underscore ends with its quote, `btcusdt`.

use crate::market::MarketKind;
use crate::text::{
    after, before, chars_of, ends_with, find_char, has_char, has_suffix, lower, lowercased,
    replace_char, replaced, same_text, slice, strip_suffix, text_of, upper_pair, upper_paired,
    without_suffix,
};
use vstd::prelude::*;

verus! {

/// Base and quote that the symbol `s` names, as the symbol writes them, if
/// the grammar reads it. The rules, in order:
///
/// * a symbol with an underscore has its base before the first underscore
///   and its quote after it;
/// * any other symbol ends with its quote: the first of `usdt`, `usdc`,
///   `qc`, `btc` that it ends with.
pub open spec fn split_of(s: Seq<char>) -> Option<(Seq<char>, Seq<char>)> {
    if s.contains('_') {
        Some((before(s, '_'), replace_char(after(s, '_'), '_', '/')))
    } else if ends_with(s, "usdt"@) {
        Some((strip_suffix(s, "usdt"@), "usdt"@))
    } else if ends_with(s, "usdc"@) {
        Some((strip_suffix(s, "usdc"@), "usdc"@))
    } else if ends_with(s, "qc"@) {
        Some((strip_suffix(s, "qc"@), "qc"@))
    } else if ends_with(s, "btc"@) {
        Some((strip_suffix(s, "btc"@), "btc"@))
    } else {
        None
    }
}

/// The pair that the symbol `s` names, if the grammar reads it: base and
/// quote in upper case.
pub open spec fn pair_of(s: Seq<char>) -> Option<Seq<char>> {
    upper_pair(split_of(s))
}

/// The market kind that the symbol `s` names: spot symbols are written in
/// lower case, swap symbols are not.
pub open spec fn kind_of(s: Seq<char>) -> MarketKind {
    if lower(s) == s {
        MarketKind::Spot
    } else {
        MarketKind::LinearSwap
    }
}

/// Base and quote that a symbol names, as the symbol writes them.
pub fn split(s: &Vec<char>) -> (r: Option<(Vec<char>, Vec<char>)>)
    ensures
        match r {
            Some((base, quote)) => split_of(s@) == Some((base@, quote@)),
            None => split_of(s@) is None,
        },
{
    if has_char(s, '_') {
        let first = find_char(s, '_');
        let base = slice(s, 0, first);
        let rest = slice(s, first + 1, s.len());
        assert(rest@ =~= after(s@, '_'));
        Some((base, replaced(&rest, '_', '/')))
    } else if has_suffix(s, "usdt") {
        Some((without_suffix(s, "usdt"), chars_of("usdt")))
    } else if has_suffix(s, "usdc") {
        Some((without_suffix(s, "usdc"), chars_of("usdc")))
    } else if has_suffix(s, "qc") {
        Some((without_suffix(s, "qc"), chars_of("qc")))
    } else if has_suffix(s, "btc") {
        Some((without_suffix(s, "btc"), chars_of("btc")))
    } else {
        None
    }
}

/// Reads a ZB symbol into its pair, `BASE/QUOTE`.
pub fn normalize_pair(symbol: &str) -> (r: Option<String>)
    ensures
        text_of(r) == pair_of(symbol@),
{
    upper_paired(split(&chars_of(symbol)))
}

/// Reads the market kind off a ZB symbol.
pub fn get_market_type(symbol: &str) -> (r: MarketKind)
    ensures
        r == kind_of(symbol@),
{
    let s = chars_of(symbol);
    let low = lowercased(&s);
    if same_text(&low, &s) {
        MarketKind::Spot
    } else {
        MarketKind::LinearSwap
    }
}

} // verus!

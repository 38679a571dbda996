//! Bybit symbols: `BTCUSDT` (linear swap), `BTCUSD` (inverse swap) and
//! `BTCUSDZ22` (inverse future, six bytes after the base).

use crate::market::MarketKind;
use crate::text::{
    chars_of, ends_with, ends_with_number, has_number_suffix, has_suffix, strip_bytes,
    strip_suffix, text_of, upper_pair, upper_paired, without_bytes, without_suffix,
};
use vstd::prelude::*;

verus! {

/// Base and quote that the symbol `s` names, as the symbol writes them, if
/// the grammar reads it. The rules, in order:
///
/// * a symbol that ends with `USDT` is quoted in it;
/// * a symbol that ends with `USD` is quoted in it;
/// * a symbol that ends with a number is a future quoted in USD, whose base
///   is the symbol without its last six bytes.
pub open spec fn split_of(s: Seq<char>) -> Option<(Seq<char>, Seq<char>)> {
    if ends_with(s, "USDT"@) {
        Some((strip_suffix(s, "USDT"@), "USDT"@))
    } else if ends_with(s, "USD"@) {
        Some((strip_suffix(s, "USD"@), "USD"@))
    } else if ends_with_number(s) {
        match strip_bytes(s, 6) {
            Some(base) => Some((base, "USD"@)),
            None => None,
        }
    } else {
        None
    }
}

/// The pair that the symbol `s` names, if the grammar reads it: base and
/// quote in upper case.
pub open spec fn pair_of(s: Seq<char>) -> Option<Seq<char>> {
    upper_pair(split_of(s))
}

/// The market kind that the symbol `s` names.
pub open spec fn kind_of(s: Seq<char>) -> MarketKind {
    if ends_with(s, "USDT"@) {
        MarketKind::LinearSwap
    } else if ends_with(s, "USD"@) {
        MarketKind::InverseSwap
    } else if ends_with_number(s) {
        MarketKind::InverseFuture
    } else {
        MarketKind::Unknown
    }
}

/// Base and quote that a symbol names, as the symbol writes them.
pub fn split(s: &Vec<char>) -> (r: Option<(Vec<char>, Vec<char>)>)
    ensures
        match r {
            Some((base, quote)) => split_of(s@) == Some((base@, quote@)),
            None => split_of(s@) is None,
        },
{
    if has_suffix(s, "USDT") {
        Some((without_suffix(s, "USDT"), chars_of("USDT")))
    } else if has_suffix(s, "USD") {
        Some((without_suffix(s, "USD"), chars_of("USD")))
    } else if has_number_suffix(s) {
        match without_bytes(s, 6) {
            Some(base) => Some((base, chars_of("USD"))),
            None => None,
        }
    } else {
        None
    }
}

/// Reads a Bybit symbol into its pair, `BASE/QUOTE`.
pub fn normalize_pair(symbol: &str) -> (r: Option<String>)
    ensures
        text_of(r) == pair_of(symbol@),
{
    upper_paired(split(&chars_of(symbol)))
}

/// Reads the market kind off a Bybit symbol.
pub fn get_market_type(symbol: &str) -> (r: MarketKind)
    ensures
        r == kind_of(symbol@),
{
    let s = chars_of(symbol);
    if has_suffix(&s, "USDT") {
        MarketKind::LinearSwap
    } else if has_suffix(&s, "USD") {
        MarketKind::InverseSwap
    } else if has_number_suffix(&s) {
        MarketKind::InverseFuture
    } else {
        MarketKind::Unknown
    }
}

} // verus!

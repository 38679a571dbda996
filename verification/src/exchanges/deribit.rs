//! Deribit symbols: `BTC-PERPETUAL` (inverse swap), `BTC-30DEC22` (inverse
//! future) and `BTC-30DEC22-20000-C` (option). Every contract is quoted in
//! USD; an option is filed under its underlying alone.

use crate::market::MarketKind;
use crate::text::{
    before, chars_of, ends_with, ends_with_number, find_char, has_char, has_number_suffix,
    has_suffix, longer_than, slice, strip_suffix, text_of, upper_pair, upper_paired, utf8_len,
    without_suffix,
};
use vstd::prelude::*;

verus! {

/// Whether `s` has the shape of a dated future: more than seven bytes, the
/// last two a number.
pub open spec fn is_dated(s: Seq<char>) -> bool {
    utf8_len(s) > 7 && ends_with_number(s)
}

/// Whether `s` has the shape of an option: it ends with `-P` or `-C`.
pub open spec fn is_option(s: Seq<char>) -> bool {
    ends_with(s, "-P"@) || ends_with(s, "-C"@)
}

/// Base and quote that the symbol `s` names, as the symbol writes them, if
/// the grammar reads it. The rules, in order:
///
/// * a symbol that ends with `-PERPETUAL` is a swap quoted in USD;
/// * a dated future is quoted in USD, its base stands before the first
///   hyphen;
/// * an option has its underlying, which stands before the first hyphen,
///   for base and quote.
pub open spec fn split_of(s: Seq<char>) -> Option<(Seq<char>, Seq<char>)> {
    if ends_with(s, "-PERPETUAL"@) {
        Some((strip_suffix(s, "-PERPETUAL"@), "USD"@))
    } else if is_dated(s) {
        if s.contains('-') {
            Some((before(s, '-'), "USD"@))
        } else {
            None
        }
    } else if is_option(s) {
        Some((before(s, '-'), before(s, '-')))
    } else {
        None
    }
}

/// The pair that the symbol `s` names, if the grammar reads it: base and
/// quote in upper case.
pub open spec fn pair_of(s: Seq<char>) -> Option<Seq<char>> {
    upper_pair(split_of(s))
}

/// The market kind that the symbol `s` names.
pub open spec fn kind_of(s: Seq<char>) -> MarketKind {
    if ends_with(s, "-PERPETUAL"@) {
        MarketKind::InverseSwap
    } else if is_dated(s) {
        MarketKind::InverseFuture
    } else if is_option(s) {
        MarketKind::EuropeanOption
    } else {
        MarketKind::Unknown
    }
}

fn dated(s: &Vec<char>) -> (r: bool)
    ensures
        r == is_dated(s@),
{
    longer_than(s, 7) && has_number_suffix(s)
}

fn option(s: &Vec<char>) -> (r: bool)
    ensures
        r == is_option(s@),
{
    has_suffix(s, "-P") || has_suffix(s, "-C")
}

/// Base and quote that a symbol names, as the symbol writes them.
pub fn split(s: &Vec<char>) -> (r: Option<(Vec<char>, Vec<char>)>)
    ensures
        match r {
            Some((base, quote)) => split_of(s@) == Some((base@, quote@)),
            None => split_of(s@) is None,
        },
{
    if has_suffix(s, "-PERPETUAL") {
        Some((without_suffix(s, "-PERPETUAL"), chars_of("USD")))
    } else if dated(s) {
        if has_char(s, '-') {
            Some((slice(s, 0, find_char(s, '-')), chars_of("USD")))
        } else {
            None
        }
    } else if option(s) {
        let base = slice(s, 0, find_char(s, '-'));
        let quote = base.clone();
        Some((base, quote))
    } else {
        None
    }
}

/// Reads a Deribit symbol into its pair, `BASE/QUOTE`.
pub fn normalize_pair(symbol: &str) -> (r: Option<String>)
    ensures
        text_of(r) == pair_of(symbol@),
{
    upper_paired(split(&chars_of(symbol)))
}

/// Reads the market kind off a Deribit symbol.
pub fn get_market_type(symbol: &str) -> (r: MarketKind)
    ensures
        r == kind_of(symbol@),
{
    let s = chars_of(symbol);
    if has_suffix(&s, "-PERPETUAL") {
        MarketKind::InverseSwap
    } else if dated(&s) {
        MarketKind::InverseFuture
    } else if option(&s) {
        MarketKind::EuropeanOption
    } else {
        MarketKind::Unknown
    }
}

} // verus!

//! Bitget symbols.
//!
//! Symbols of the current API carry a market suffix: `BTCUSDT_SPBL` (spot),
//! `BTCUSDT_UMCBL` and `BTCPERP_CMCBL` (linear swaps), `BTCUSD_DMCBL`
//! (inverse swap), `BTCUSD_DMCBL_221230` (dated future). Symbols of the
//! earlier API are lower case: `cmt_btcusdt` (linear swap), `btc_usdt`
//! (spot), `btcusd` (inverse swap).

use crate::market::MarketKind;
use crate::text::{
    after, before, chars_of, contains_text, ends_with, find_char, has_char, has_prefix,
    has_suffix, has_text, lemma_position, replace_char, replaced, slice, starts_with,
    strip_prefix, strip_suffix, text_of, upper_pair, upper_paired, without_suffix,
};
use vstd::prelude::*;

verus! {

/// Whether `s` is a symbol of the current API.
pub open spec fn is_current(s: Seq<char>) -> bool {
    ends_with(s, "_SPBL"@) || contains_text(s, "_UMCBL"@) || contains_text(s, "_CMCBL"@)
        || contains_text(s, "_DMCBL"@)
}

/// Base and quote of a symbol of the current API whose part before the
/// first underscore is `pair`: the quote is the first of `USDT`, `USD`, `ETH`,
/// `BTC` that `pair` ends with.
pub open spec fn split_quote(pair: Seq<char>) -> Option<(Seq<char>, Seq<char>)> {
    if ends_with(pair, "USDT"@) {
        Some((strip_suffix(pair, "USDT"@), "USDT"@))
    } else if ends_with(pair, "USD"@) {
        Some((strip_suffix(pair, "USD"@), "USD"@))
    } else if ends_with(pair, "ETH"@) {
        Some((strip_suffix(pair, "ETH"@), "ETH"@))
    } else if ends_with(pair, "BTC"@) {
        Some((strip_suffix(pair, "BTC"@), "BTC"@))
    } else {
        None
    }
}

/// Base and quote that the symbol `s` names, as the symbol writes them, if
/// the grammar reads it. The rules, in order:
///
/// * a symbol of the current API that ends with `PERP_CMCBL` is quoted in
///   USDC;
/// * any other symbol of the current API ends its first part with its quote;
/// * a symbol that begins with `cmt_` ends with its quote, `usdt`;
/// * a symbol with an underscore has its base before the first underscore
///   and its quote after it;
/// * a symbol that ends with `usd` is quoted in it.
pub open spec fn split_of(s: Seq<char>) -> Option<(Seq<char>, Seq<char>)> {
    if is_current(s) {
        if ends_with(s, "PERP_CMCBL"@) {
            Some((strip_suffix(s, "PERP_CMCBL"@), "USDC"@))
        } else {
            split_quote(before(s, '_'))
        }
    } else if starts_with(s, "cmt_"@) {
        if ends_with(s, "usdt"@) {
            Some((strip_prefix(strip_suffix(s, "usdt"@), "cmt_"@), "usdt"@))
        } else {
            None
        }
    } else if s.contains('_') {
        Some((before(s, '_'), replace_char(after(s, '_'), '_', '/')))
    } else if ends_with(s, "usd"@) {
        Some((strip_suffix(s, "usd"@), "usd"@))
    } else {
        None
    }
}

/// The pair that the symbol `s` names, if the grammar reads it: base and
/// quote in upper case.
pub open spec fn pair_of(s: Seq<char>) -> Option<Seq<char>> {
    upper_pair(split_of(s))
}

/// The market kind that the symbol `s` names.
pub open spec fn kind_of(s: Seq<char>) -> MarketKind {
    if is_current(s) {
        if ends_with(s, "_SPBL"@) {
            MarketKind::Spot
        } else if ends_with(s, "_UMCBL"@) || ends_with(s, "_CMCBL"@) {
            MarketKind::LinearSwap
        } else if ends_with(s, "_DMCBL"@) {
            MarketKind::InverseSwap
        } else if contains_text(s, "_UMCBL_"@) || contains_text(s, "_CMCBL_"@) {
            MarketKind::LinearFuture
        } else if contains_text(s, "_DMCBL_"@) {
            MarketKind::InverseFuture
        } else {
            MarketKind::Unknown
        }
    } else if starts_with(s, "cmt_"@) {
        MarketKind::LinearSwap
    } else if s.contains('_') {
        MarketKind::Spot
    } else if ends_with(s, "usd"@) {
        MarketKind::InverseSwap
    } else {
        MarketKind::Unknown
    }
}

/// A text that begins with `cmt_` and ends with `usdt` has room for both.
proof fn lemma_cmt_usdt(s: Seq<char>)
    requires
        starts_with(s, "cmt_"@),
        ends_with(s, "usdt"@),
    ensures
        s.len() >= 8,
{
    reveal_strlit("cmt_");
    reveal_strlit("usdt");
    let head = s.subrange(0, 4);
    let tail = s.subrange(s.len() - 4, s.len() as int);
    assert(head[3] == '_');
    if s.len() < 8 {
        assert(tail[7 - s.len()] == s[3]);
    }
}

fn current(s: &Vec<char>) -> (r: bool)
    ensures
        r == is_current(s@),
{
    has_suffix(s, "_SPBL") || has_text(s, "_UMCBL") || has_text(s, "_CMCBL") || has_text(
        s,
        "_DMCBL",
    )
}

fn quote_split(pair: &Vec<char>) -> (r: Option<(Vec<char>, Vec<char>)>)
    ensures
        match r {
            Some((base, quote)) => split_quote(pair@) == Some((base@, quote@)),
            None => split_quote(pair@) is None,
        },
{
    if has_suffix(pair, "USDT") {
        Some((without_suffix(pair, "USDT"), chars_of("USDT")))
    } else if has_suffix(pair, "USD") {
        Some((without_suffix(pair, "USD"), chars_of("USD")))
    } else if has_suffix(pair, "ETH") {
        Some((without_suffix(pair, "ETH"), chars_of("ETH")))
    } else if has_suffix(pair, "BTC") {
        Some((without_suffix(pair, "BTC"), chars_of("BTC")))
    } else {
        None
    }
}

/// Base and quote that a symbol names, as the symbol writes them.
pub fn split(s: &Vec<char>) -> (r: Option<(Vec<char>, Vec<char>)>)
    ensures
        match r {
            Some((base, quote)) => split_of(s@) == Some((base@, quote@)),
            None => split_of(s@) is None,
        },
{
    if current(s) {
        if has_suffix(s, "PERP_CMCBL") {
            Some((without_suffix(s, "PERP_CMCBL"), chars_of("USDC")))
        } else {
            let pair = slice(s, 0, find_char(s, '_'));
            assert(pair@ == before(s@, '_'));
            quote_split(&pair)
        }
    } else if has_prefix(s, "cmt_") {
        if has_suffix(s, "usdt") {
            proof {
                lemma_cmt_usdt(s@);
                reveal_strlit("cmt_");
                reveal_strlit("usdt");
            }
            let base = slice(s, 4, s.len() - 4);
            assert(base@ =~= strip_prefix(strip_suffix(s@, "usdt"@), "cmt_"@));
            Some((base, chars_of("usdt")))
        } else {
            None
        }
    } else if has_char(s, '_') {
        let first = find_char(s, '_');
        let base = slice(s, 0, first);
        let rest = slice(s, first + 1, s.len());
        assert(rest@ =~= after(s@, '_'));
        Some((base, replaced(&rest, '_', '/')))
    } else if has_suffix(s, "usd") {
        Some((without_suffix(s, "usd"), chars_of("usd")))
    } else {
        None
    }
}

/// Reads a Bitget symbol into its pair, `BASE/QUOTE`.
pub fn normalize_pair(symbol: &str) -> (r: Option<String>)
    ensures
        text_of(r) == pair_of(symbol@),
{
    upper_paired(split(&chars_of(symbol)))
}

/// Reads the market kind off a Bitget symbol.
pub fn get_market_type(symbol: &str) -> (r: MarketKind)
    ensures
        r == kind_of(symbol@),
{
    let s = chars_of(symbol);
    if current(&s) {
        if has_suffix(&s, "_SPBL") {
            MarketKind::Spot
        } else if has_suffix(&s, "_UMCBL") || has_suffix(&s, "_CMCBL") {
            MarketKind::LinearSwap
        } else if has_suffix(&s, "_DMCBL") {
            MarketKind::InverseSwap
        } else if has_text(&s, "_UMCBL_") || has_text(&s, "_CMCBL_") {
            MarketKind::LinearFuture
        } else if has_text(&s, "_DMCBL_") {
            MarketKind::InverseFuture
        } else {
            MarketKind::Unknown
        }
    } else if has_prefix(&s, "cmt_") {
        MarketKind::LinearSwap
    } else if has_char(&s, '_') {
        MarketKind::Spot
    } else if has_suffix(&s, "usd") {
        MarketKind::InverseSwap
    } else {
        MarketKind::Unknown
    }
}

} // verus!

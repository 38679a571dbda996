//! KuCoin symbols: `XBTUSDM` (inverse swap), `XBTUSDTM` and `XBTUSDCM`
//! (linear swaps), `XBTMH22` (inverse future, four bytes after the base) and
//! `ETH2-ETH` (spot). KuCoin writes some currencies in its own way.

use crate::market::MarketKind;
use crate::text::{
    after, before, chars_of, ends_with, ends_with_number, find_char, has_char, has_number_suffix,
    has_suffix, render, rendered, same_text, slice, string_of, strip_bytes, strip_suffix,
    text_of, upper, uppercased, without_bytes, without_suffix,
};
use vstd::prelude::*;

verus! {

/// The usual ticker of a currency that KuCoin writes in its own way; any
/// other ticker is kept.
pub open spec fn alias_of(currency: Seq<char>) -> Seq<char> {
    if currency == "XBT"@ {
        "BTC"@
    } else if currency == "BCHSV"@ {
        "BSV"@
    } else if currency == "ETH2"@ {
        "ksETH"@
    } else if currency == "R"@ {
        "REV"@
    } else if currency == "WAX"@ {
        "WAXP"@
    } else if currency == "LOKI"@ {
        "OXEN"@
    } else if currency == "GALAX"@ {
        "GALA"@
    } else {
        currency
    }
}

/// The canonical ticker of a currency: its usual ticker in upper case.
pub open spec fn currency_of(currency: Seq<char>) -> Seq<char> {
    upper(alias_of(currency))
}

/// Base and quote that the symbol `s` names, as the symbol writes them, if
/// the grammar reads it. The rules, in order:
///
/// * a symbol that ends with `USDM` is a swap quoted in USD;
/// * a symbol that ends with `USDTM` or `USDCM` is a swap quoted in USDT or
///   USDC;
/// * a symbol that ends with a number is a future quoted in USD, whose base
///   is the symbol without its last four bytes;
/// * a symbol with a hyphen has its base before the first hyphen and its
///   quote between the first and the second.
pub open spec fn split_of(s: Seq<char>) -> Option<(Seq<char>, Seq<char>)> {
    if ends_with(s, "USDM"@) {
        Some((strip_suffix(s, "USDM"@), "USD"@))
    } else if ends_with(s, "USDTM"@) || ends_with(s, "USDCM"@) {
        Some((s.take(s.len() - 5), s.subrange(s.len() - 5, s.len() - 1)))
    } else if ends_with_number(s) {
        match strip_bytes(s, 4) {
            Some(base) => Some((base, "USD"@)),
            None => None,
        }
    } else if s.contains('-') {
        Some((before(s, '-'), before(after(s, '-'), '-')))
    } else {
        None
    }
}

/// The pair that the symbol `s` names, if the grammar reads it.
pub open spec fn pair_of(s: Seq<char>) -> Option<Seq<char>> {
    match split_of(s) {
        Some((base, quote)) => Some(render(currency_of(base), currency_of(quote))),
        None => None,
    }
}

/// The market kind that the symbol `s` names.
pub open spec fn kind_of(s: Seq<char>) -> MarketKind {
    if ends_with(s, "USDM"@) {
        MarketKind::InverseSwap
    } else if ends_with(s, "USDTM"@) || ends_with(s, "USDCM"@) {
        MarketKind::LinearSwap
    } else if ends_with_number(s) {
        MarketKind::InverseFuture
    } else if s.contains('-') {
        MarketKind::Spot
    } else {
        MarketKind::Unknown
    }
}

fn alias(currency: &Vec<char>) -> (r: Vec<char>)
    ensures
        r@ == alias_of(currency@),
{
    if same_text(currency, &chars_of("XBT")) {
        chars_of("BTC")
    } else if same_text(currency, &chars_of("BCHSV")) {
        chars_of("BSV")
    } else if same_text(currency, &chars_of("ETH2")) {
        chars_of("ksETH")
    } else if same_text(currency, &chars_of("R")) {
        chars_of("REV")
    } else if same_text(currency, &chars_of("WAX")) {
        chars_of("WAXP")
    } else if same_text(currency, &chars_of("LOKI")) {
        chars_of("OXEN")
    } else if same_text(currency, &chars_of("GALAX")) {
        chars_of("GALA")
    } else {
        currency.clone()
    }
}

/// The canonical ticker of a currency.
pub fn currency(raw: &Vec<char>) -> (r: Vec<char>)
    ensures
        r@ == currency_of(raw@),
{
    uppercased(&alias(raw))
}

/// Gives a currency its canonical ticker.
pub fn normalize_currency(currency: &str) -> (r: String)
    ensures
        r@ == currency_of(currency@),
{
    string_of(&self::currency(&chars_of(currency)))
}

/// Base and quote that a symbol names, as the symbol writes them.
pub fn split(s: &Vec<char>) -> (r: Option<(Vec<char>, Vec<char>)>)
    ensures
        match r {
            Some((base, quote)) => split_of(s@) == Some((base@, quote@)),
            None => split_of(s@) is None,
        },
{
    if has_suffix(s, "USDM") {
        Some((without_suffix(s, "USDM"), chars_of("USD")))
    } else if has_suffix(s, "USDTM") || has_suffix(s, "USDCM") {
        proof {
            reveal_strlit("USDTM");
            reveal_strlit("USDCM");
        }
        let n = s.len();
        let base = slice(s, 0, n - 5);
        let quote = slice(s, n - 5, n - 1);
        assert(base@ =~= s@.take(s@.len() - 5));
        Some((base, quote))
    } else if has_number_suffix(s) {
        match without_bytes(s, 4) {
            Some(base) => Some((base, chars_of("USD"))),
            None => None,
        }
    } else if has_char(s, '-') {
        let first = find_char(s, '-');
        let base = slice(s, 0, first);
        let rest = slice(s, first + 1, s.len());
        let second = find_char(&rest, '-');
        let quote = slice(&rest, 0, second);
        assert(rest@ =~= after(s@, '-'));
        Some((base, quote))
    } else {
        None
    }
}

/// Reads a KuCoin symbol into its pair, `BASE/QUOTE`.
pub fn normalize_pair(symbol: &str) -> (r: Option<String>)
    ensures
        text_of(r) == pair_of(symbol@),
{
    let s = chars_of(symbol);
    match split(&s) {
        Some((base, quote)) => Some(string_of(&rendered(&currency(&base), &currency(&quote)))),
        None => None,
    }
}

/// Reads the market kind off a KuCoin symbol.
pub fn get_market_type(symbol: &str) -> (r: MarketKind)
    ensures
        r == kind_of(symbol@),
{
    let s = chars_of(symbol);
    if has_suffix(&s, "USDM") {
        MarketKind::InverseSwap
    } else if has_suffix(&s, "USDTM") || has_suffix(&s, "USDCM") {
        MarketKind::LinearSwap
    } else if has_number_suffix(&s) {
        MarketKind::InverseFuture
    } else if has_char(&s, '-') {
        MarketKind::Spot
    } else {
        MarketKind::Unknown
    }
}

} // verus!

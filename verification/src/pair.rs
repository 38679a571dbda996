//! Canonical pairs, and the grammar of every known exchange behind one
//! entry point.
//!
//! A canonical pair is written `BASE/QUOTE`. Both tickers are ASCII texts
//! without lower-case letters. A symbol that already has this form is its own
//! canonical pair; any other symbol is read by the grammar of its exchange.

use crate::exchanges::{bitget, bybit, deribit, kucoin, mexc, zb, zbg};
use crate::market::MarketKind;
use crate::text::{
    after, before, chars_of, find_char, is_ascii, lemma_position, lemma_position_is, render,
    rendered, same_text, slice, string_of, text_of, upper, uppercased,
};
use vstd::prelude::*;

verus! {

/// An exchange whose symbols the library reads.
#[derive(Clone, Copy, Debug, PartialEq, Eq, Hash, Structural)]
pub enum Exchange {
    Bitget,
    Bybit,
    Deribit,
    Kucoin,
    Mexc,
    Zb,
    Zbg,
}

/// The exchange of that name, if the library reads its symbols.
pub open spec fn exchange_named(name: Seq<char>) -> Option<Exchange> {
    if name == "bitget"@ {
        Some(Exchange::Bitget)
    } else if name == "bybit"@ {
        Some(Exchange::Bybit)
    } else if name == "deribit"@ {
        Some(Exchange::Deribit)
    } else if name == "kucoin"@ {
        Some(Exchange::Kucoin)
    } else if name == "mexc"@ {
        Some(Exchange::Mexc)
    } else if name == "zb"@ {
        Some(Exchange::Zb)
    } else if name == "zbg"@ {
        Some(Exchange::Zbg)
    } else {
        None
    }
}

/// Whether `c` may stand in a ticker: an ASCII character that is neither a
/// lower-case letter nor the slash.
pub open spec fn is_ticker_char(c: char) -> bool {
    is_ascii(c) && !('a' <= c && c <= 'z') && c != '/'
}

/// Whether `t` is a ticker: not empty, and made of ticker characters.
pub open spec fn is_ticker(t: Seq<char>) -> bool {
    t.len() > 0 && forall|i: int| 0 <= i < t.len() ==> is_ticker_char(#[trigger] t[i])
}

/// Whether `p` is a canonical pair: a ticker, a slash, a ticker.
pub open spec fn is_canonical(p: Seq<char>) -> bool {
    p.contains('/') && is_ticker(before(p, '/')) && is_ticker(after(p, '/'))
}

/// What the grammar of `exchange` reads `s` as.
pub open spec fn grammar_pair(exchange: Exchange, s: Seq<char>) -> Option<Seq<char>> {
    match exchange {
        Exchange::Bitget => bitget::pair_of(s),
        Exchange::Bybit => bybit::pair_of(s),
        Exchange::Deribit => deribit::pair_of(s),
        Exchange::Kucoin => kucoin::pair_of(s),
        Exchange::Mexc => mexc::pair_of(s),
        Exchange::Zb => zb::pair_of(s),
        Exchange::Zbg => zbg::pair_of(s),
    }
}

/// The market kind that the grammar of `exchange` reads off `s`.
pub open spec fn grammar_kind(exchange: Exchange, s: Seq<char>) -> MarketKind {
    match exchange {
        Exchange::Bitget => bitget::kind_of(s),
        Exchange::Bybit => bybit::kind_of(s),
        Exchange::Deribit => deribit::kind_of(s),
        Exchange::Kucoin => kucoin::kind_of(s),
        Exchange::Mexc => mexc::kind_of(s),
        Exchange::Zb => zb::kind_of(s),
        Exchange::Zbg => zbg::kind_of(s),
    }
}

/// Base and quote in upper case.
pub open spec fn upper_both(split: Option<(Seq<char>, Seq<char>)>) -> Option<
    (Seq<char>, Seq<char>),
> {
    match split {
        Some((base, quote)) => Some((upper(base), upper(quote))),
        None => None,
    }
}

/// The tickers of base and quote that the grammar of `exchange` reads off
/// `s`: what the symbol writes, with the exchange's own spellings replaced,
/// in upper case.
pub open spec fn tickers_of(exchange: Exchange, s: Seq<char>) -> Option<(Seq<char>, Seq<char>)> {
    match exchange {
        Exchange::Bitget => upper_both(bitget::split_of(s)),
        Exchange::Bybit => upper_both(bybit::split_of(s)),
        Exchange::Deribit => upper_both(deribit::split_of(s)),
        Exchange::Kucoin => match kucoin::split_of(s) {
            Some((base, quote)) => Some((kucoin::currency_of(base), kucoin::currency_of(quote))),
            None => None,
        },
        Exchange::Mexc => upper_both(mexc::split_of(s)),
        Exchange::Zb => upper_both(zb::split_of(s)),
        Exchange::Zbg => upper_both(zbg::split_of(s)),
    }
}

/// The canonical pair of the symbol `s` on `exchange`: `s` itself where it is
/// canonical already, else the tickers that the grammar reads off it, joined
/// by a slash, provided that both are tickers.
pub open spec fn canonical_pair(exchange: Exchange, s: Seq<char>) -> Option<Seq<char>> {
    if is_canonical(s) {
        Some(s)
    } else {
        match tickers_of(exchange, s) {
            Some((base, quote)) => if is_ticker(base) && is_ticker(quote) {
                Some(render(base, quote))
            } else {
                None
            },
            None => None,
        }
    }
}

/// The canonical pair of the symbol `s` on the exchange called `name`. Where
/// the library does not read the symbols of that exchange, `s` has a
/// canonical pair only if it is one.
pub open spec fn normal_pair(s: Seq<char>, name: Seq<char>) -> Option<Seq<char>> {
    match exchange_named(name) {
        Some(exchange) => canonical_pair(exchange, s),
        None => if is_canonical(s) {
            Some(s)
        } else {
            None
        },
    }
}

/// The market kind of the symbol `s` on the exchange called `name`.
pub open spec fn market_kind(s: Seq<char>, name: Seq<char>) -> MarketKind {
    match exchange_named(name) {
        Some(exchange) => grammar_kind(exchange, s),
        None => MarketKind::Unknown,
    }
}

/// The canonical ticker of `currency` on the exchange called `name`: the
/// exchange's own spellings are replaced, and the ticker is put in upper case.
pub open spec fn normal_currency(currency: Seq<char>, name: Seq<char>) -> Seq<char> {
    if name == "kucoin"@ {
        kucoin::currency_of(currency)
    } else {
        upper(currency)
    }
}

/// A base and a quote ticker.
#[derive(Clone, Debug)]
pub struct CanonicalPair {
    pub base: String,
    pub quote: String,
}

impl CanonicalPair {
    /// Both fields are tickers.
    pub open spec fn wf(&self) -> bool {
        is_ticker(self.base@) && is_ticker(self.quote@)
    }

    /// The pair as text, `BASE/QUOTE`.
    pub open spec fn text(&self) -> Seq<char> {
        render(self.base@, self.quote@)
    }

    /// Reads a pair from its text.
    pub fn parse(text: &str) -> (r: Option<CanonicalPair>)
        ensures
            r is Some <==> is_canonical(text@),
            r matches Some(p) ==> p.wf() && p.text() == text@,
    {
        let s = chars_of(text);
        match split_canonical(&s) {
            Some((base, quote)) => Some(
                CanonicalPair { base: string_of(&base), quote: string_of(&quote) },
            ),
            None => None,
        }
    }

    /// Writes the pair as text.
    pub fn render(&self) -> (r: String)
        requires
            self.wf(),
        ensures
            r@ == self.text(),
            is_canonical(r@),
    {
        let base = chars_of(self.base.as_str());
        let quote = chars_of(self.quote.as_str());
        proof {
            lemma_render_canonical(base@, quote@);
        }
        string_of(&rendered(&base, &quote))
    }
}

/// Two tickers joined by a slash make a canonical pair, which splits into
/// the same two tickers.
pub proof fn lemma_render_canonical(base: Seq<char>, quote: Seq<char>)
    requires
        is_ticker(base),
        is_ticker(quote),
    ensures
        is_canonical(render(base, quote)),
        before(render(base, quote), '/') == base,
        after(render(base, quote), '/') == quote,
{
    let p = render(base, quote);
    assert(p[base.len() as int] == '/');
    assert forall|j: int| 0 <= j < base.len() implies p[j] != '/' by {
        assert(p[j] == base[j]);
        assert(is_ticker_char(base[j]));
    }
    lemma_position_is(p, '/', base.len() as int);
    assert(before(p, '/') =~= base);
    assert(after(p, '/') =~= quote);
}

/// A canonical pair is its two tickers joined by a slash.
pub proof fn lemma_canonical_split(p: Seq<char>)
    requires
        is_canonical(p),
    ensures
        p == render(before(p, '/'), after(p, '/')),
{
    lemma_position(p, '/');
    assert(p =~= render(before(p, '/'), after(p, '/')));
}

fn ticker(t: &Vec<char>) -> (r: bool)
    ensures
        r == is_ticker(t@),
{
    if t.len() == 0 {
        return false;
    }
    let mut i: usize = 0;
    while i < t.len()
        invariant
            i <= t.len(),
            forall|j: int| 0 <= j < i ==> is_ticker_char(#[trigger] t[j]),
        decreases t.len() - i,
    {
        let c = t[i];
        let code: u32 = c as u32;
        if code >= 128 || ('a' <= c && c <= 'z') || c == '/' {
            assert(!is_ticker_char(t[i as int]));
            return false;
        }
        i += 1;
    }
    true
}

fn split_canonical(s: &Vec<char>) -> (r: Option<(Vec<char>, Vec<char>)>)
    ensures
        r is Some <==> is_canonical(s@),
        r matches Some((base, quote)) ==> {
            &&& base@ == before(s@, '/')
            &&& quote@ == after(s@, '/')
            &&& s@ == render(base@, quote@)
        },
{
    let pos = find_char(s, '/');
    proof {
        lemma_position(s@, '/');
    }
    if pos >= s.len() {
        return None;
    }
    let base = slice(s, 0, pos);
    let quote = slice(s, pos + 1, s.len());
    assert(quote@ =~= after(s@, '/'));
    if ticker(&base) && ticker(&quote) {
        proof {
            lemma_canonical_split(s@);
        }
        Some((base, quote))
    } else {
        None
    }
}

impl Exchange {
    /// The exchange of that name, if the library reads its symbols.
    pub fn from_name(name: &str) -> (r: Option<Exchange>)
        ensures
            r == exchange_named(name@),
    {
        let n = chars_of(name);
        if same_text(&n, &chars_of("bitget")) {
            Some(Exchange::Bitget)
        } else if same_text(&n, &chars_of("bybit")) {
            Some(Exchange::Bybit)
        } else if same_text(&n, &chars_of("deribit")) {
            Some(Exchange::Deribit)
        } else if same_text(&n, &chars_of("kucoin")) {
            Some(Exchange::Kucoin)
        } else if same_text(&n, &chars_of("mexc")) {
            Some(Exchange::Mexc)
        } else if same_text(&n, &chars_of("zb")) {
            Some(Exchange::Zb)
        } else if same_text(&n, &chars_of("zbg")) {
            Some(Exchange::Zbg)
        } else {
            None
        }
    }

    /// Reads `symbol` with the grammar of this exchange into its canonical
    /// pair and its market kind. A symbol that is a canonical pair already is
    /// kept; one that the grammar does not read into a canonical pair is
    /// refused.
    pub fn parse(self, symbol: &str) -> (r: Option<(CanonicalPair, MarketKind)>)
        ensures
            match r {
                Some((pair, kind)) => {
                    &&& pair.wf()
                    &&& canonical_pair(self, symbol@) == Some(pair.text())
                    &&& kind == grammar_kind(self, symbol@)
                },
                None => canonical_pair(self, symbol@) is None,
            },
    {
        let kind = match self {
            Exchange::Bitget => bitget::get_market_type(symbol),
            Exchange::Bybit => bybit::get_market_type(symbol),
            Exchange::Deribit => deribit::get_market_type(symbol),
            Exchange::Kucoin => kucoin::get_market_type(symbol),
            Exchange::Mexc => mexc::get_market_type(symbol),
            Exchange::Zb => zb::get_market_type(symbol),
            Exchange::Zbg => zbg::get_market_type(symbol),
        };
        match CanonicalPair::parse(symbol) {
            Some(pair) => Some((pair, kind)),
            None => {
                let s = chars_of(symbol);
                let tickers = match self {
                    Exchange::Bitget => upper_each(bitget::split(&s)),
                    Exchange::Bybit => upper_each(bybit::split(&s)),
                    Exchange::Deribit => upper_each(deribit::split(&s)),
                    Exchange::Kucoin => match kucoin::split(&s) {
                        Some((base, quote)) => Some(
                            (kucoin::currency(&base), kucoin::currency(&quote)),
                        ),
                        None => None,
                    },
                    Exchange::Mexc => upper_each(mexc::split(&s)),
                    Exchange::Zb => upper_each(zb::split(&s)),
                    Exchange::Zbg => upper_each(zbg::split(&s)),
                };
                match tickers {
                    Some((base, quote)) => if ticker(&base) && ticker(&quote) {
                        Some(
                            (
                                CanonicalPair {
                                    base: string_of(&base),
                                    quote: string_of(&quote),
                                },
                                kind,
                            ),
                        )
                    } else {
                        None
                    },
                    None => None,
                }
            },
        }
    }
}

fn upper_each(split: Option<(Vec<char>, Vec<char>)>) -> (r: Option<(Vec<char>, Vec<char>)>)
    ensures
        match r {
            Some((base, quote)) => upper_both(
                match split {
                    Some((b, q)) => Some((b@, q@)),
                    None => None,
                },
            ) == Some((base@, quote@)),
            None => split is None,
        },
{
    match split {
        Some((base, quote)) => Some((uppercased(&base), uppercased(&quote))),
        None => None,
    }
}

/// Reads the symbol of an exchange into its canonical pair, `BASE/QUOTE`.
/// `None` where the symbol cannot be read.
pub fn normalize_pair(raw_symbol: &str, exchange: &str) -> (r: Option<String>)
    ensures
        text_of(r) == normal_pair(raw_symbol@, exchange@),
{
    let pair = match Exchange::from_name(exchange) {
        Some(exchange) => match exchange.parse(raw_symbol) {
            Some((pair, _)) => Some(pair),
            None => None,
        },
        None => CanonicalPair::parse(raw_symbol),
    };
    match pair {
        Some(pair) => Some(pair.render()),
        None => None,
    }
}

/// Reads the market kind off the symbol of an exchange; `Unknown` where the
/// exchange is not known.
pub fn get_market_kind(raw_symbol: &str, exchange: &str) -> (r: MarketKind)
    ensures
        r == market_kind(raw_symbol@, exchange@),
{
    match Exchange::from_name(exchange) {
        Some(Exchange::Bitget) => bitget::get_market_type(raw_symbol),
        Some(Exchange::Bybit) => bybit::get_market_type(raw_symbol),
        Some(Exchange::Deribit) => deribit::get_market_type(raw_symbol),
        Some(Exchange::Kucoin) => kucoin::get_market_type(raw_symbol),
        Some(Exchange::Mexc) => mexc::get_market_type(raw_symbol),
        Some(Exchange::Zb) => zb::get_market_type(raw_symbol),
        Some(Exchange::Zbg) => zbg::get_market_type(raw_symbol),
        None => MarketKind::Unknown,
    }
}

/// Gives a currency of an exchange its canonical ticker.
pub fn normalize_currency(currency: &str, exchange: &str) -> (r: String)
    ensures
        r@ == normal_currency(currency@, exchange@),
{
    if same_text(&chars_of(exchange), &chars_of("kucoin")) {
        kucoin::normalize_currency(currency)
    } else {
        string_of(&uppercased(&chars_of(currency)))
    }
}

/// Normalizing is idempotent: the canonical pair of a symbol is its own
/// canonical pair, on the same exchange.
pub proof fn lemma_normalize_idempotent(s: Seq<char>, exchange: Seq<char>)
    requires
        normal_pair(s, exchange) is Some,
    ensures
        normal_pair(normal_pair(s, exchange).unwrap(), exchange) == normal_pair(s, exchange),
        is_canonical(normal_pair(s, exchange).unwrap()),
{
    if !is_canonical(s) {
        let (base, quote) = tickers_of(exchange_named(exchange).unwrap(), s).unwrap();
        lemma_render_canonical(base, quote);
    }
}

/// The canonical pair of a symbol that the grammar reads is the pair that
/// the grammar reads it as.
pub proof fn lemma_canonical_is_grammar(exchange: Exchange, s: Seq<char>)
    requires
        !is_canonical(s),
        canonical_pair(exchange, s) is Some,
    ensures
        canonical_pair(exchange, s) == grammar_pair(exchange, s),
{
}

} // verus!

//! A grammar for exchanges whose symbols end with one of a known set of
//! quote currencies.

use crate::text::{
    chars_of, ends_with, occurs_at_exec, render, rendered, slice, string_of, strip_suffix,
    text_of, upper, uppercased,
};
use std::collections::HashSet;
use vstd::prelude::*;

verus! {

/// The texts of the strings that a set of quotes holds.
pub uninterp spec fn quote_texts(quotes: HashSet<String>) -> Set<Seq<char>>;

/// Calls `HashSet::iter` and clones every string it yields. The result holds
/// the strings of the set, in the order in which the set is walked, of which
/// nothing is known.
#[verifier::external_body]
fn listed(quotes: &HashSet<String>) -> (v: Vec<String>)
    ensures
        forall|q: Seq<char>|
            quote_texts(*quotes).contains(q) <==> exists|i: int|
                0 <= i < v.len() && (#[trigger] v[i])@ == q,
{
    quotes.iter().cloned().collect()
}

/// The pair of a symbol `s` that ends with the quote `q`, in upper case.
pub open spec fn pair_with_quote(s: Seq<char>, q: Seq<char>) -> Seq<char> {
    render(upper(strip_suffix(s, q)), upper(q))
}

/// The length of the longest of `quotes` that `s` ends with; `None` where
/// `s` ends with none of them.
pub open spec fn longest_fit(s: Seq<char>, quotes: Seq<String>) -> Option<nat>
    decreases quotes.len(),
{
    if quotes.len() == 0 {
        None
    } else {
        let earlier = longest_fit(s, quotes.drop_last());
        let last = quotes.last()@;
        if !ends_with(s, last) {
            earlier
        } else {
            match earlier {
                Some(n) => if n >= last.len() {
                    Some(n)
                } else {
                    Some(last.len())
                },
                None => Some(last.len()),
            }
        }
    }
}

/// The pair of `s` by the longest of `quotes` that `s` ends with.
pub open spec fn pair_with_longest(s: Seq<char>, quotes: Seq<String>) -> Option<Seq<char>> {
    match longest_fit(s, quotes) {
        Some(n) => Some(pair_with_quote(s, s.skip(s.len() - n))),
        None => None,
    }
}

/// Whether `q` is the longest text of `quotes` that `s` ends with.
pub open spec fn is_longest_quote(s: Seq<char>, quotes: Set<Seq<char>>, q: Seq<char>) -> bool {
    &&& quotes.contains(q)
    &&& ends_with(s, q)
    &&& forall|other: Seq<char>|
        quotes.contains(other) && #[trigger] ends_with(s, other) ==> other.len() <= q.len()
}

/// Two texts of one length that `s` ends with are the same text: a symbol
/// has one longest quote at most.
pub proof fn lemma_one_longest(s: Seq<char>, a: Seq<char>, b: Seq<char>)
    requires
        ends_with(s, a),
        ends_with(s, b),
        a.len() == b.len(),
    ensures
        a == b,
{
}

/// What [`longest_fit`] gives: the length of one of the quotes that `s`
/// ends with, which none of them exceeds; and nothing only where `s` ends
/// with none of them.
pub proof fn lemma_longest_fit(s: Seq<char>, quotes: Seq<String>)
    ensures
        match longest_fit(s, quotes) {
            Some(n) => {
                &&& exists|i: int|
                    0 <= i < quotes.len() && ends_with(s, (#[trigger] quotes[i])@)
                        && quotes[i]@.len() == n
                &&& forall|i: int|
                    0 <= i < quotes.len() && ends_with(s, (#[trigger] quotes[i])@)
                        ==> quotes[i]@.len() <= n
            },
            None => forall|i: int| 0 <= i < quotes.len() ==> !ends_with(s, (#[trigger] quotes[i])@),
        },
    decreases quotes.len(),
{
    if quotes.len() > 0 {
        let rest = quotes.drop_last();
        lemma_longest_fit(s, rest);
        let k = quotes.len() - 1;
        assert(quotes.last() == quotes[k]);
        assert forall|i: int| 0 <= i < rest.len() implies rest[i] == quotes[i] by {}
        match longest_fit(s, quotes) {
            Some(n) => {
                if ends_with(s, quotes[k]@) && quotes[k]@.len() == n {
                    assert(0 <= k < quotes.len() && ends_with(s, quotes[k]@) && quotes[k]@.len()
                        == n);
                } else {
                    let i = choose|i: int|
                        0 <= i < rest.len() && ends_with(s, (#[trigger] rest[i])@) && rest[i]@.len()
                            == n;
                    assert(0 <= i < quotes.len() && ends_with(s, quotes[i]@) && quotes[i]@.len()
                        == n);
                }
                assert forall|i: int|
                    0 <= i < quotes.len() && ends_with(s, (#[trigger] quotes[i])@) implies quotes[i]@.len()
                    <= n by {
                    if i < k {
                        assert(rest[i] == quotes[i]);
                    }
                }
            },
            None => {
                assert forall|i: int| 0 <= i < quotes.len() implies !ends_with(
                    s,
                    (#[trigger] quotes[i])@,
                ) by {
                    if i < k {
                        assert(rest[i] == quotes[i]);
                    }
                }
            },
        }
    }
}

/// Reads a symbol that ends with one of `quotes` into its pair, in upper
/// case. Of several quotes that fit, the longest is taken.
pub fn normalize_pair_with_quote_list(symbol: &str, quotes: &Vec<String>) -> (r: Option<String>)
    ensures
        text_of(r) == pair_with_longest(symbol@, quotes@),
{
    let s = chars_of(symbol);
    let mut best: Option<usize> = None;
    let mut i: usize = 0;
    while i < quotes.len()
        invariant
            i <= quotes.len(),
            s@ == symbol@,
            match best {
                Some(n) => longest_fit(symbol@, quotes@.take(i as int)) == Some(n as nat) && n
                    <= s.len(),
                None => longest_fit(symbol@, quotes@.take(i as int)) is None,
            },
        decreases quotes.len() - i,
    {
        let q = chars_of(quotes[i].as_str());
        proof {
            assert(quotes@.take(i + 1).drop_last() =~= quotes@.take(i as int));
            assert(quotes@.take(i + 1).last() == quotes[i as int]);
        }
        if q.len() <= s.len() && occurs_at_exec(&s, &q, s.len() - q.len()) {
            best = match best {
                Some(n) => if n >= q.len() {
                    Some(n)
                } else {
                    Some(q.len())
                },
                None => Some(q.len()),
            };
        }
        i += 1;
    }
    assert(quotes@.take(i as int) =~= quotes@);
    match best {
        Some(n) => {
            let base = slice(&s, 0, s.len() - n);
            let quote = slice(&s, s.len() - n, s.len());
            assert(quote@ =~= s@.skip(s@.len() - n));
            assert(base@ =~= strip_suffix(s@, quote@));
            Some(string_of(&rendered(&uppercased(&base), &uppercased(&quote))))
        },
        None => None,
    }
}

/// Reads a symbol that ends with one of `quotes` into its pair, in upper
/// case. Of several quotes that fit, the longest is taken, so that a symbol
/// has one pair however the set is walked.
pub fn normalize_pair_with_quotes(symbol: &str, quotes: &HashSet<String>) -> (r: Option<String>)
    ensures
        match r {
            Some(p) => exists|q: Seq<char>|
                #[trigger] is_longest_quote(symbol@, quote_texts(*quotes), q) && p@
                    == pair_with_quote(symbol@, q),
            None => forall|q: Seq<char>|
                quote_texts(*quotes).contains(q) ==> !#[trigger] ends_with(symbol@, q),
        },
{
    let list = listed(quotes);
    let r = normalize_pair_with_quote_list(symbol, &list);
    proof {
        lemma_longest_fit(symbol@, list@);
        match longest_fit(symbol@, list@) {
            Some(n) => {
                let i = choose|i: int|
                    0 <= i < list.len() && ends_with(symbol@, (#[trigger] list[i])@)
                        && list[i]@.len() == n;
                let q = list[i]@;
                assert(q =~= symbol@.skip(symbol@.len() - n));
                assert(quote_texts(*quotes).contains(q));
                assert forall|other: Seq<char>|
                    quote_texts(*quotes).contains(other) && #[trigger] ends_with(
                        symbol@,
                        other,
                    ) implies other.len() <= q.len() by {
                    let j = choose|j: int| 0 <= j < list.len() && (#[trigger] list[j])@ == other;
                }
                assert(is_longest_quote(symbol@, quote_texts(*quotes), q));
            },
            None => {
                assert forall|q: Seq<char>| quote_texts(*quotes).contains(q) implies !ends_with(
                    symbol@,
                    q,
                ) by {
                    let i = choose|i: int| 0 <= i < list.len() && (#[trigger] list[i])@ == q;
                }
            },
        }
    }
    r
}

} // verus!

//! Character-level helpers for symbol grammars.
//!
//! Symbols are handled as sequences of characters. Each executable helper
//! works on a `Vec<char>` and is specified by a spec function of the same
//! name over `Seq<char>`.

use vstd::prelude::*;

verus! {

/// `String::push` appends one character to the end of the string.
pub assume_specification[ String::push ](s: &mut String, ch: char)
    ensures
        final(s)@ == old(s)@.push(ch),
;

/// The text that `str::to_uppercase` returns for a text.
pub uninterp spec fn uppercase_of(s: Seq<char>) -> Seq<char>;

/// The text that `str::to_lowercase` returns for a text.
pub uninterp spec fn lowercase_of(s: Seq<char>) -> Seq<char>;

/// Whether `c` is an ASCII character.
pub open spec fn is_ascii(c: char) -> bool {
    (c as u32) < 128
}

/// Whether every character of `s` is an ASCII character.
pub open spec fn is_ascii_text(s: Seq<char>) -> bool {
    forall|i: int| 0 <= i < s.len() ==> is_ascii(#[trigger] s[i])
}

/// The upper-case form of an ASCII character.
pub open spec fn ascii_upper(c: char) -> char {
    if 'a' <= c && c <= 'z' {
        ((c as u8) - 32) as char
    } else {
        c
    }
}

/// The lower-case form of an ASCII character.
pub open spec fn ascii_lower(c: char) -> char {
    if 'A' <= c && c <= 'Z' {
        ((c as u8) + 32) as char
    } else {
        c
    }
}

/// The upper-case form of a text. In a text of ASCII characters the letters
/// `a` to `z` become `A` to `Z`; any other text has the upper-case form that
/// `str::to_uppercase` gives it.
pub open spec fn upper(s: Seq<char>) -> Seq<char> {
    if is_ascii_text(s) {
        Seq::new(s.len(), |i: int| ascii_upper(s[i]))
    } else {
        uppercase_of(s)
    }
}

/// The lower-case form of a text. In a text of ASCII characters the letters
/// `A` to `Z` become `a` to `z`; any other text has the lower-case form that
/// `str::to_lowercase` gives it.
pub open spec fn lower(s: Seq<char>) -> Seq<char> {
    if is_ascii_text(s) {
        Seq::new(s.len(), |i: int| ascii_lower(s[i]))
    } else {
        lowercase_of(s)
    }
}

/// Calls `str::to_uppercase`, which depends on its argument alone. The
/// result is [`uppercase_of`] the argument.
#[verifier::external_body]
fn str_to_uppercase(s: &str) -> (r: String)
    ensures
        r@ == uppercase_of(s@),
{
    s.to_uppercase()
}

/// Calls `str::to_lowercase`, which depends on its argument alone. The
/// result is [`lowercase_of`] the argument.
#[verifier::external_body]
fn str_to_lowercase(s: &str) -> (r: String)
    ensures
        r@ == lowercase_of(s@),
{
    s.to_lowercase()
}

/// Whether `pat` stands in `s` at position `i`.
pub open spec fn occurs_at(s: Seq<char>, pat: Seq<char>, i: int) -> bool {
    0 <= i && i + pat.len() <= s.len() && s.subrange(i, i + pat.len()) == pat
}

/// Whether `s` begins with `pat`.
pub open spec fn starts_with(s: Seq<char>, pat: Seq<char>) -> bool {
    occurs_at(s, pat, 0)
}

/// Whether `s` ends with `pat`.
pub open spec fn ends_with(s: Seq<char>, pat: Seq<char>) -> bool {
    occurs_at(s, pat, s.len() - pat.len())
}

/// Whether `pat` stands somewhere in `s`.
pub open spec fn contains_text(s: Seq<char>, pat: Seq<char>) -> bool {
    exists|i: int| occurs_at(s, pat, i)
}

/// `s` without its last `pat.len()` characters.
pub open spec fn strip_suffix(s: Seq<char>, pat: Seq<char>) -> Seq<char> {
    s.take(s.len() - pat.len())
}

/// `s` without its first `pat.len()` characters.
pub open spec fn strip_prefix(s: Seq<char>, pat: Seq<char>) -> Seq<char> {
    s.skip(pat.len() as int)
}

/// The position of the first `c` in `s`, or `s.len()` where `s` holds none.
pub open spec fn position(s: Seq<char>, c: char) -> int
    decreases s.len(),
{
    if s.len() == 0 || s[0] == c {
        0
    } else {
        1 + position(s.drop_first(), c)
    }
}

/// The part of `s` before its first `c`; all of `s` where it holds none.
pub open spec fn before(s: Seq<char>, c: char) -> Seq<char> {
    s.take(position(s, c))
}

/// The part of `s` after its first `c`; empty where it holds none.
pub open spec fn after(s: Seq<char>, c: char) -> Seq<char> {
    if position(s, c) < s.len() {
        s.skip(position(s, c) + 1)
    } else {
        Seq::empty()
    }
}

/// The `n`-th of the pieces into which the separator `sep` splits `s`,
/// counted from zero; `None` where there are fewer pieces.
pub open spec fn piece(s: Seq<char>, sep: char, n: nat) -> Option<Seq<char>>
    decreases n,
{
    if n == 0 {
        Some(before(s, sep))
    } else if s.contains(sep) {
        piece(after(s, sep), sep, (n - 1) as nat)
    } else {
        None
    }
}

/// The last of the pieces into which the separator `sep` splits `s`.
pub open spec fn last_piece(s: Seq<char>, sep: char) -> Seq<char>
    decreases s.len(),
    via last_piece_decreases
{
    if position(s, sep) < s.len() {
        last_piece(after(s, sep), sep)
    } else {
        s
    }
}

#[via_fn]
proof fn last_piece_decreases(s: Seq<char>, sep: char) {
    lemma_position(s, sep);
}

/// `s` with every `from` replaced by `to`.
pub open spec fn replace_char(s: Seq<char>, from: char, to: char) -> Seq<char> {
    Seq::new(s.len(), |i: int| if s[i] == from { to } else { s[i] })
}

/// `base` and `quote` joined by a slash.
pub open spec fn render(base: Seq<char>, quote: Seq<char>) -> Seq<char> {
    base + seq!['/'] + quote
}

/// Base and quote in upper case, joined by a slash.
pub open spec fn upper_pair(split: Option<(Seq<char>, Seq<char>)>) -> Option<Seq<char>> {
    match split {
        Some((base, quote)) => Some(render(upper(base), upper(quote))),
        None => None,
    }
}

/// The text of an optional string.
pub open spec fn text_of(s: Option<String>) -> Option<Seq<char>> {
    match s {
        Some(s) => Some(s@),
        None => None,
    }
}

/// Whether `c` is one of the digits `0`..`9`.
pub open spec fn is_digit(c: char) -> bool {
    '0' <= c && c <= '9'
}

/// The number of bytes that `c` takes in UTF-8.
pub open spec fn utf8_width(c: char) -> int {
    if (c as u32) < 0x80 {
        1
    } else if (c as u32) < 0x800 {
        2
    } else if (c as u32) < 0x10000 {
        3
    } else {
        4
    }
}

/// The number of bytes that `s` takes in UTF-8.
pub open spec fn utf8_len(s: Seq<char>) -> int
    decreases s.len(),
{
    if s.len() == 0 {
        0
    } else {
        utf8_len(s.drop_last()) + utf8_width(s.last())
    }
}

/// Whether the last two bytes of `s` in UTF-8 read as a decimal integer: a
/// digit, before it another digit or a sign.
pub open spec fn ends_with_number(s: Seq<char>) -> bool {
    s.len() >= 2 && is_digit(s[s.len() - 1]) && (is_digit(s[s.len() - 2]) || s[s.len() - 2] == '+'
        || s[s.len() - 2] == '-')
}

/// `s` without its last `n` bytes in UTF-8: `None` where `s` is shorter, or
/// where the cut would fall inside a character.
pub open spec fn strip_bytes(s: Seq<char>, n: int) -> Option<Seq<char>>
    decreases s.len(),
{
    if n == 0 {
        Some(s)
    } else if n < 0 || s.len() == 0 {
        None
    } else {
        strip_bytes(s.drop_last(), n - utf8_width(s.last()))
    }
}

/// The first `c` of `s` stands at `position(s, c)`, and no `c` stands
/// before it.
pub proof fn lemma_position(s: Seq<char>, c: char)
    ensures
        0 <= position(s, c) <= s.len(),
        position(s, c) < s.len() ==> s[position(s, c)] == c,
        forall|j: int| 0 <= j < position(s, c) ==> s[j] != c,
    decreases s.len(),
{
    if s.len() == 0 || s[0] == c {
    } else {
        lemma_position(s.drop_first(), c);
        assert forall|j: int| 0 <= j < position(s, c) implies s[j] != c by {
            if j > 0 {
                assert(s.drop_first()[j - 1] == s[j]);
            }
        }
    }
}

/// The first `c` of `s` stands at `i` where `s[i]` is `c` and no earlier
/// character is; it stands nowhere where no character is `c`.
pub proof fn lemma_position_is(s: Seq<char>, c: char, i: int)
    requires
        0 <= i <= s.len(),
        i < s.len() ==> s[i] == c,
        forall|j: int| 0 <= j < i ==> s[j] != c,
    ensures
        position(s, c) == i,
{
    lemma_position(s, c);
    let p = position(s, c);
    if p < i {
        assert(s[p] == c);
    }
}

/// The characters of `s`, in order.
pub fn chars_of(s: &str) -> (v: Vec<char>)
    ensures
        v@ == s@,
{
    let mut v: Vec<char> = Vec::new();
    for c in it: s.chars()
        invariant
            v@ == it.seq().take(it.index() as int),
            it.seq() == s@,
    {
        v.push(c);
    }
    v
}

/// The string made of the characters of `v`, in order.
pub fn string_of(v: &Vec<char>) -> (s: String)
    ensures
        s@ == v@,
{
    let mut s = String::new();
    let mut i: usize = 0;
    while i < v.len()
        invariant
            i <= v.len(),
            s@ == v@.take(i as int),
        decreases v.len() - i,
    {
        s.push(v[i]);
        i += 1;
    }
    s
}

/// Whether the two texts hold the same characters.
pub fn same_text(a: &Vec<char>, b: &Vec<char>) -> (r: bool)
    ensures
        r == (a@ == b@),
{
    if a.len() != b.len() {
        return false;
    }
    let mut i: usize = 0;
    while i < a.len()
        invariant
            i <= a.len(),
            a.len() == b.len(),
            forall|j: int| 0 <= j < i ==> a[j] == b[j],
        decreases a.len() - i,
    {
        if a[i] != b[i] {
            return false;
        }
        i += 1;
    }
    assert(a@ =~= b@);
    true
}

/// The characters of `s` from `from` up to, not including, `to`.
pub fn slice(s: &Vec<char>, from: usize, to: usize) -> (r: Vec<char>)
    requires
        from <= to <= s.len(),
    ensures
        r@ == s@.subrange(from as int, to as int),
{
    let mut r: Vec<char> = Vec::new();
    let mut i: usize = from;
    while i < to
        invariant
            from <= i <= to,
            to <= s.len(),
            r@ == s@.subrange(from as int, i as int),
        decreases to - i,
    {
        r.push(s[i]);
        i += 1;
        assert(r@ =~= s@.subrange(from as int, i as int));
    }
    r
}

/// `a` followed by `b`.
pub fn joined(a: &Vec<char>, b: &Vec<char>) -> (r: Vec<char>)
    ensures
        r@ == a@ + b@,
{
    let mut r: Vec<char> = a.clone();
    let mut i: usize = 0;
    while i < b.len()
        invariant
            i <= b.len(),
            r@ == a@ + b@.take(i as int),
        decreases b.len() - i,
    {
        r.push(b[i]);
        i += 1;
        assert(r@ =~= a@ + b@.take(i as int));
    }
    assert(b@.take(b.len() as int) =~= b@);
    r
}

/// Whether `pat` stands in `s` at position `i`.
pub fn occurs_at_exec(s: &Vec<char>, pat: &Vec<char>, i: usize) -> (r: bool)
    ensures
        r == occurs_at(s@, pat@, i as int),
{
    if pat.len() > s.len() || i > s.len() - pat.len() {
        return false;
    }
    let part = slice(s, i, i + pat.len());
    same_text(&part, pat)
}

/// Whether `s` begins with `pat`.
pub fn has_prefix(s: &Vec<char>, pat: &str) -> (r: bool)
    ensures
        r == starts_with(s@, pat@),
{
    let p = chars_of(pat);
    occurs_at_exec(s, &p, 0)
}

/// Whether `s` ends with `pat`.
pub fn has_suffix(s: &Vec<char>, pat: &str) -> (r: bool)
    ensures
        r == ends_with(s@, pat@),
{
    let p = chars_of(pat);
    if p.len() > s.len() {
        return false;
    }
    occurs_at_exec(s, &p, s.len() - p.len())
}

/// Whether `pat` stands somewhere in `s`.
pub fn has_text(s: &Vec<char>, pat: &str) -> (r: bool)
    ensures
        r == contains_text(s@, pat@),
{
    let p = chars_of(pat);
    if p.len() > s.len() {
        assert forall|i: int| !occurs_at(s@, p@, i) by {}
        return false;
    }
    let last: usize = s.len() - p.len();
    let mut i: usize = 0;
    loop
        invariant
            i <= last,
            last == s.len() - p.len(),
            p@ == pat@,
            forall|j: int| 0 <= j < i ==> !occurs_at(s@, p@, j),
        decreases last - i,
    {
        if occurs_at_exec(s, &p, i) {
            return true;
        }
        if i == last {
            assert forall|j: int| !occurs_at(s@, p@, j) by {}
            return false;
        }
        i += 1;
    }
}

/// Whether `s` holds the character `c`.
pub fn has_char(s: &Vec<char>, c: char) -> (r: bool)
    ensures
        r == (position(s@, c) < s@.len()),
        r == s@.contains(c),
{
    let p = find_char(s, c);
    proof {
        lemma_position(s@, c);
    }
    p < s.len()
}

/// The position of the first `c` in `s`, or `s.len()` where `s` holds none.
pub fn find_char(s: &Vec<char>, c: char) -> (r: usize)
    ensures
        r == position(s@, c),
        r <= s.len(),
{
    let mut i: usize = 0;
    while i < s.len() && s[i] != c
        invariant
            i <= s.len(),
            forall|j: int| 0 <= j < i ==> s[j] != c,
        decreases s.len() - i,
    {
        i += 1;
    }
    proof {
        lemma_position_is(s@, c, i as int);
    }
    i
}

/// The position of the first `c` in `s` at or after `start`, or `s.len()`
/// where none follows.
pub fn find_char_from(s: &Vec<char>, c: char, start: usize) -> (r: usize)
    requires
        start <= s.len(),
    ensures
        r == start + position(s@.skip(start as int), c),
        start <= r <= s.len(),
{
    let mut i: usize = start;
    while i < s.len() && s[i] != c
        invariant
            start <= i <= s.len(),
            forall|j: int| start <= j < i ==> s[j] != c,
        decreases s.len() - i,
    {
        i += 1;
    }
    proof {
        lemma_position_is(s@.skip(start as int), c, i - start);
    }
    i
}

/// The `n`-th of the pieces into which the separator `sep` splits `s`,
/// counted from zero; `None` where there are fewer pieces.
pub fn nth_piece(s: &Vec<char>, sep: char, n: usize) -> (r: Option<Vec<char>>)
    ensures
        match r {
            Some(p) => piece(s@, sep, n as nat) == Some(p@),
            None => piece(s@, sep, n as nat) is None,
        },
{
    let mut start: usize = 0;
    let mut left: usize = n;
    assert(s@.skip(0) =~= s@);
    while left > 0
        invariant
            start <= s.len(),
            piece(s@, sep, n as nat) == piece(s@.skip(start as int), sep, left as nat),
        decreases left,
    {
        let end = find_char_from(s, sep, start);
        let ghost rest = s@.skip(start as int);
        proof {
            lemma_position(rest, sep);
        }
        if end >= s.len() {
            assert(!rest.contains(sep));
            return None;
        }
        assert(rest[end - start] == sep);
        assert(after(rest, sep) =~= s@.skip(end + 1));
        start = end + 1;
        left = left - 1;
    }
    let end = find_char_from(s, sep, start);
    let p = slice(s, start, end);
    assert(p@ =~= before(s@.skip(start as int), sep));
    Some(p)
}

/// The last of the pieces into which the separator `sep` splits `s`.
pub fn final_piece(s: &Vec<char>, sep: char) -> (r: Vec<char>)
    ensures
        r@ == last_piece(s@, sep),
{
    let mut start: usize = 0;
    assert(s@.skip(0) =~= s@);
    loop
        invariant
            start <= s.len(),
            last_piece(s@, sep) == last_piece(s@.skip(start as int), sep),
        decreases s.len() - start,
    {
        let end = find_char_from(s, sep, start);
        if end >= s.len() {
            let p = slice(s, start, s.len());
            assert(p@ =~= s@.skip(start as int));
            return p;
        }
        assert(after(s@.skip(start as int), sep) =~= s@.skip(end + 1));
        start = end + 1;
    }
}

/// `s` without its last `pat.len()` characters.
pub fn without_suffix(s: &Vec<char>, pat: &str) -> (r: Vec<char>)
    requires
        ends_with(s@, pat@),
    ensures
        r@ == strip_suffix(s@, pat@),
{
    let p = chars_of(pat);
    slice(s, 0, s.len() - p.len())
}

/// `s` with every `from` replaced by `to`.
pub fn replaced(s: &Vec<char>, from: char, to: char) -> (r: Vec<char>)
    ensures
        r@ == replace_char(s@, from, to),
{
    let mut r: Vec<char> = Vec::new();
    let mut i: usize = 0;
    while i < s.len()
        invariant
            i <= s.len(),
            r.len() == i,
            forall|j: int| 0 <= j < i ==> r[j] == (if s[j] == from { to } else { s[j] }),
        decreases s.len() - i,
    {
        let c = s[i];
        r.push(if c == from { to } else { c });
        i += 1;
    }
    assert(r@ =~= replace_char(s@, from, to));
    r
}

/// Whether every character of `s` is an ASCII character.
pub fn is_ascii_chars(s: &Vec<char>) -> (r: bool)
    ensures
        r == is_ascii_text(s@),
{
    let mut i: usize = 0;
    while i < s.len()
        invariant
            i <= s.len(),
            forall|j: int| 0 <= j < i ==> is_ascii(#[trigger] s[j]),
        decreases s.len() - i,
    {
        let code: u32 = s[i] as u32;
        if code >= 128 {
            assert(!is_ascii(s[i as int]));
            return false;
        }
        i += 1;
    }
    true
}

/// The upper-case form of `s`.
pub fn uppercased(s: &Vec<char>) -> (r: Vec<char>)
    ensures
        r@ == upper(s@),
{
    if is_ascii_chars(s) {
        let mut r: Vec<char> = Vec::new();
        let mut i: usize = 0;
        while i < s.len()
            invariant
                i <= s.len(),
                r.len() == i,
                is_ascii_text(s@),
                forall|j: int| 0 <= j < i ==> r[j] == ascii_upper(s[j]),
            decreases s.len() - i,
        {
            let c = s[i];
            assert(is_ascii(s[i as int]));
            if 'a' <= c && c <= 'z' {
                r.push(((c as u8) - 32) as char);
            } else {
                r.push(c);
            }
            i += 1;
        }
        assert(r@ =~= upper(s@));
        r
    } else {
        let text = string_of(s);
        let upper = str_to_uppercase(text.as_str());
        chars_of(upper.as_str())
    }
}

/// The lower-case form of `s`.
pub fn lowercased(s: &Vec<char>) -> (r: Vec<char>)
    ensures
        r@ == lower(s@),
{
    if is_ascii_chars(s) {
        let mut r: Vec<char> = Vec::new();
        let mut i: usize = 0;
        while i < s.len()
            invariant
                i <= s.len(),
                r.len() == i,
                is_ascii_text(s@),
                forall|j: int| 0 <= j < i ==> r[j] == ascii_lower(s[j]),
            decreases s.len() - i,
        {
            let c = s[i];
            assert(is_ascii(s[i as int]));
            if 'A' <= c && c <= 'Z' {
                r.push(((c as u8) + 32) as char);
            } else {
                r.push(c);
            }
            i += 1;
        }
        assert(r@ =~= lower(s@));
        r
    } else {
        let text = string_of(s);
        let lower = str_to_lowercase(text.as_str());
        chars_of(lower.as_str())
    }
}

/// `base` and `quote` joined by a slash.
pub fn rendered(base: &Vec<char>, quote: &Vec<char>) -> (r: Vec<char>)
    ensures
        r@ == render(base@, quote@),
{
    let mut r: Vec<char> = base.clone();
    r.push('/');
    let r = joined(&r, quote);
    assert(r@ =~= render(base@, quote@));
    r
}

/// Base and quote in upper case, joined by a slash, as a string.
pub fn upper_paired(split: Option<(Vec<char>, Vec<char>)>) -> (r: Option<String>)
    ensures
        text_of(r) == upper_pair(
            match split {
                Some((base, quote)) => Some((base@, quote@)),
                None => None,
            },
        ),
{
    match split {
        Some((base, quote)) => Some(
            string_of(&rendered(&uppercased(&base), &uppercased(&quote))),
        ),
        None => None,
    }
}

/// Whether `c` is one of the digits `0`..`9`.
pub fn digit(c: char) -> (r: bool)
    ensures
        r == is_digit(c),
{
    '0' <= c && c <= '9'
}

/// The number of bytes that `c` takes in UTF-8.
pub fn width(c: char) -> (r: usize)
    ensures
        r == utf8_width(c),
        1 <= r <= 4,
{
    let code: u32 = c as u32;
    if code < 0x80 {
        1
    } else if code < 0x800 {
        2
    } else if code < 0x10000 {
        3
    } else {
        4
    }
}

/// A text takes at least as many bytes as any of its beginnings.
pub proof fn lemma_utf8_len_grows(s: Seq<char>, n: int)
    requires
        0 <= n <= s.len(),
    ensures
        0 <= utf8_len(s.take(n)) <= utf8_len(s),
    decreases s.len() - n,
{
    if n == s.len() {
        assert(s.take(n) =~= s);
        lemma_utf8_len_natural(s);
    } else {
        lemma_utf8_len_grows(s.drop_last(), n);
        assert(s.drop_last().take(n) =~= s.take(n));
    }
}

/// No text takes a negative number of bytes.
pub proof fn lemma_utf8_len_natural(s: Seq<char>)
    ensures
        0 <= utf8_len(s),
    decreases s.len(),
{
    if s.len() > 0 {
        lemma_utf8_len_natural(s.drop_last());
    }
}

/// Whether `s` takes more than `n` bytes in UTF-8.
pub fn longer_than(s: &Vec<char>, n: usize) -> (r: bool)
    ensures
        r == (utf8_len(s@) > n),
{
    let mut total: usize = 0;
    let mut i: usize = 0;
    while i < s.len()
        invariant
            i <= s.len(),
            total == utf8_len(s@.take(i as int)),
            total <= n,
        decreases s.len() - i,
    {
        let w = width(s[i]);
        proof {
            assert(s@.take(i + 1).drop_last() =~= s@.take(i as int));
            assert(s@.take(i + 1).last() == s[i as int]);
            lemma_utf8_len_grows(s@, i + 1);
        }
        if w > n - total {
            return true;
        }
        total = total + w;
        i += 1;
    }
    assert(s@.take(i as int) =~= s@);
    false
}

/// Whether the last two bytes of `s` in UTF-8 read as a decimal integer.
pub fn has_number_suffix(s: &Vec<char>) -> (r: bool)
    ensures
        r == ends_with_number(s@),
{
    if s.len() < 2 {
        return false;
    }
    let last = s[s.len() - 1];
    let second = s[s.len() - 2];
    digit(last) && (digit(second) || second == '+' || second == '-')
}

/// `s` without its last `n` bytes in UTF-8: `None` where `s` is shorter, or
/// where the cut would fall inside a character.
pub fn without_bytes(s: &Vec<char>, n: usize) -> (r: Option<Vec<char>>)
    ensures
        match r {
            Some(t) => strip_bytes(s@, n as int) == Some(t@),
            None => strip_bytes(s@, n as int) is None,
        },
{
    let mut keep: usize = s.len();
    let mut left: usize = n;
    assert(s@.take(keep as int) =~= s@);
    while left > 0
        invariant
            keep <= s.len(),
            strip_bytes(s@, n as int) == strip_bytes(s@.take(keep as int), left as int),
        decreases keep,
    {
        if keep == 0 {
            return None;
        }
        let w = width(s[keep - 1]);
        if w > left {
            proof {
                let t = s@.take(keep as int);
                assert(t.last() == s[keep - 1]);
                assert(strip_bytes(t.drop_last(), left - utf8_width(t.last())) is None);
            }
            return None;
        }
        proof {
            let t = s@.take(keep as int);
            assert(t.last() == s[keep - 1]);
            assert(t.drop_last() =~= s@.take(keep - 1));
        }
        left = left - w;
        keep = keep - 1;
    }
    let t = slice(s, 0, keep);
    assert(s@.take(keep as int) =~= s@.subrange(0, keep as int));
    Some(t)
}

} // verus!

//! Tables of contract multipliers, keyed by pair.
//!
//! A table can be written as text, one entry on a line: the pair, a space,
//! the multiplier as a decimal number. A line that does not read so, or whose
//! multiplier is zero, adds nothing. Of two lines for one pair the later one
//! counts.

use crate::amount::Amount;
use crate::decimal::{decimal, parsed};
use crate::text::{
    after, before, chars_of, find_char, find_char_from, lemma_position, position, slice,
    string_of,
};
use vstd::hash_map::StringHashMap;
use vstd::prelude::*;

verus! {

/// The multiplier of one pair.
#[derive(Clone, Debug)]
pub struct ContractSpec {
    /// The pair, `BASE/QUOTE`.
    pub pair: String,
    /// What one contract is worth: an amount above zero.
    pub multiplier: Amount,
}

impl ContractSpec {
    /// The multiplier is above zero.
    pub open spec fn wf(&self) -> bool {
        self.multiplier.positive()
    }
}

/// The multiplier that a text writes: a decimal number above zero.
pub open spec fn multiplier_of(text: Seq<char>) -> Option<Amount> {
    match parsed(text) {
        Some(a) => if a.num > 0 {
            Some(a)
        } else {
            None
        },
        None => None,
    }
}

/// The table `acc` with the entry that `line` writes.
pub open spec fn with_line(acc: Map<Seq<char>, Amount>, line: Seq<char>) -> Map<
    Seq<char>,
    Amount,
> {
    match multiplier_of(after(line, ' ')) {
        Some(m) => acc.insert(before(line, ' '), m),
        None => acc,
    }
}

/// The table `acc` with the entries that the lines of `text` write.
pub open spec fn with_text(acc: Map<Seq<char>, Amount>, text: Seq<char>) -> Map<
    Seq<char>,
    Amount,
>
    decreases text.len(),
    via with_text_decreases
{
    if text.len() == 0 {
        acc
    } else if position(text, '\n') >= text.len() {
        with_line(acc, text)
    } else {
        with_text(
            with_line(acc, text.take(position(text, '\n'))),
            text.skip(position(text, '\n') + 1),
        )
    }
}

#[via_fn]
proof fn with_text_decreases(acc: Map<Seq<char>, Amount>, text: Seq<char>) {
    lemma_position(text, '\n');
}

/// The table that `text` writes.
pub open spec fn table_of(text: Seq<char>) -> Map<Seq<char>, Amount> {
    with_text(Map::empty(), text)
}

/// The table `acc` with the entries of `specs`, the later ones over the
/// earlier ones.
pub open spec fn with_specs(acc: Map<Seq<char>, Amount>, specs: Seq<ContractSpec>) -> Map<
    Seq<char>,
    Amount,
>
    decreases specs.len(),
{
    if specs.len() == 0 {
        acc
    } else {
        with_specs(acc, specs.drop_last()).insert(specs.last().pair@, specs.last().multiplier)
    }
}

/// Whether every multiplier of a table is above zero.
pub open spec fn all_positive(table: Map<Seq<char>, Amount>) -> bool {
    forall|pair: Seq<char>| table.contains_key(pair) ==> (#[trigger] table[pair]).positive()
}

/// Reads a multiplier: a decimal number above zero.
pub fn multiplier(text: &Vec<char>) -> (r: Option<Amount>)
    ensures
        r == multiplier_of(text@),
        r matches Some(m) ==> m.positive(),
{
    match decimal(text) {
        Some(a) => if a.num > 0 {
            Some(a)
        } else {
            None
        },
        None => None,
    }
}

/// Contract multipliers by pair.
pub struct ContractTable {
    pub entries: StringHashMap<Amount>,
}

impl View for ContractTable {
    type V = Map<Seq<char>, Amount>;

    open spec fn view(&self) -> Map<Seq<char>, Amount> {
        self.entries@
    }
}

impl ContractTable {
    /// Every multiplier is above zero.
    pub open spec fn wf(&self) -> bool {
        all_positive(self@)
    }

    /// A table without entries.
    pub fn new() -> (t: ContractTable)
        ensures
            t@ == Map::<Seq<char>, Amount>::empty(),
            t.wf(),
    {
        ContractTable { entries: StringHashMap::new() }
    }

    /// The table that `text` writes.
    pub fn from_text(text: &str) -> (t: ContractTable)
        ensures
            t@ == table_of(text@),
            t.wf(),
    {
        let s = chars_of(text);
        let mut t = ContractTable::new();
        let mut start: usize = 0;
        assert(s@.skip(0) =~= s@);
        while start < s.len()
            invariant
                start <= s.len(),
                t.wf(),
                table_of(s@) == with_text(t@, s@.skip(start as int)),
            decreases s.len() - start,
        {
            let end = find_char_from(&s, '\n', start);
            let line = slice(&s, start, end);
            let ghost rest = s@.skip(start as int);
            proof {
                assert(line@ =~= rest.take(position(rest, '\n')));
                if end < s.len() {
                    assert(rest.skip(position(rest, '\n') + 1) =~= s@.skip(end + 1));
                } else {
                    assert(line@ =~= rest);
                }
            }
            t.add_line(&line);
            if end < s.len() {
                start = end + 1;
            } else {
                start = s.len();
                assert(s@.skip(start as int).len() == 0);
            }
        }
        t
    }

    fn add_line(&mut self, line: &Vec<char>)
        requires
            old(self).wf(),
        ensures
            final(self)@ == with_line(old(self)@, line@),
            final(self).wf(),
    {
        let space = find_char(line, ' ');
        proof {
            lemma_position(line@, ' ');
        }
        let pair = slice(line, 0, space);
        let value = if space < line.len() {
            slice(line, space + 1, line.len())
        } else {
            Vec::new()
        };
        assert(pair@ =~= before(line@, ' '));
        assert(value@ =~= after(line@, ' '));
        match multiplier(&value) {
            Some(m) => {
                self.entries.insert(string_of(&pair), m);
            },
            None => {},
        }
    }

    /// The multiplier of `pair`, if the table holds one.
    pub fn get(&self, pair: &str) -> (r: Option<Amount>)
        ensures
            r == (if self@.contains_key(pair@) {
                Some(self@[pair@])
            } else {
                None
            }),
            self.wf() && r is Some ==> r.unwrap().positive(),
    {
        match self.entries.get(pair) {
            Some(m) => Some(*m),
            None => None,
        }
    }

    /// The number of pairs in the table.
    pub fn len(&self) -> (r: usize)
        ensures
            r == self@.len(),
    {
        self.entries.len()
    }

    /// Puts the entries of `specs` into the table. An entry replaces the one
    /// that the table has for its pair; every other entry of the table stays.
    pub fn overlay(&mut self, specs: &Vec<ContractSpec>)
        requires
            old(self).wf(),
            forall|i: int| 0 <= i < specs.len() ==> (#[trigger] specs[i]).wf(),
        ensures
            final(self)@ == with_specs(old(self)@, specs@),
            final(self).wf(),
    {
        let mut i: usize = 0;
        while i < specs.len()
            invariant
                i <= specs.len(),
                self.wf(),
                forall|i: int| 0 <= i < specs.len() ==> (#[trigger] specs[i]).wf(),
                self@ == with_specs(old(self)@, specs@.take(i as int)),
            decreases specs.len() - i,
        {
            proof {
                assert(specs@.take(i + 1).drop_last() =~= specs@.take(i as int));
                assert(specs@.take(i + 1).last() == specs[i as int]);
            }
            self.entries.insert(specs[i].pair.clone(), specs[i].multiplier);
            i += 1;
        }
        assert(specs@.take(i as int) =~= specs@);
    }
}

/// An overlay keeps the multiplier of every pair that it does not name.
pub proof fn lemma_overlay_keeps(table: Map<Seq<char>, Amount>, specs: Seq<ContractSpec>, pair: Seq<char>)
    requires
        forall|i: int| 0 <= i < specs.len() ==> (#[trigger] specs[i]).pair@ != pair,
    ensures
        with_specs(table, specs).contains_key(pair) == table.contains_key(pair),
        table.contains_key(pair) ==> with_specs(table, specs)[pair] == table[pair],
    decreases specs.len(),
{
    if specs.len() > 0 {
        let rest = specs.drop_last();
        assert forall|i: int| 0 <= i < rest.len() implies (#[trigger] rest[i]).pair@ != pair by {
            assert(rest[i] == specs[i]);
        }
        lemma_overlay_keeps(table, rest, pair);
        assert(specs.last() == specs[specs.len() - 1]);
    }
}

/// An overlay gives a pair that it names the multiplier of the last entry
/// that names it.
pub proof fn lemma_overlay_sets(
    table: Map<Seq<char>, Amount>,
    specs: Seq<ContractSpec>,
    i: int,
)
    requires
        0 <= i < specs.len(),
        forall|j: int| i < j < specs.len() ==> (#[trigger] specs[j]).pair@ != specs[i].pair@,
    ensures
        with_specs(table, specs).contains_key(specs[i].pair@),
        with_specs(table, specs)[specs[i].pair@] == specs[i].multiplier,
    decreases specs.len(),
{
    if i < specs.len() - 1 {
        let rest = specs.drop_last();
        assert(rest[i] == specs[i]);
        assert forall|j: int| i < j < rest.len() implies (#[trigger] rest[j]).pair@
            != rest[i].pair@ by {
            assert(rest[j] == specs[j]);
        }
        lemma_overlay_sets(table, rest, i);
        assert(specs.last() == specs[specs.len() - 1]);
    }
}

} // verus!

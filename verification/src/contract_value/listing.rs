//! Instrument listings, as the exchanges publish them.
//!
//! A listing names the pair of each instrument and writes its multiplier as
//! a decimal number. It is usable only as a whole: one instrument whose pair
//! or multiplier cannot be read spoils the listing.

use crate::amount::Amount;
use crate::contract_value::table::{multiplier, multiplier_of, ContractSpec};
use crate::text::{chars_of, text_of};
use vstd::prelude::*;

verus! {

/// One instrument of a listing.
#[derive(Clone, Debug)]
pub struct Listed {
    /// The canonical pair, where the symbol could be read.
    pub pair: Option<String>,
    /// The multiplier, as a decimal number.
    pub multiplier: String,
}

impl View for Listed {
    type V = (Option<Seq<char>>, Seq<char>);

    open spec fn view(&self) -> (Option<Seq<char>>, Seq<char>) {
        (text_of(self.pair), self.multiplier@)
    }
}

/// The instruments of a listing, each as its pair and its multiplier text.
pub open spec fn listing_of(listing: Seq<Listed>) -> Seq<(Option<Seq<char>>, Seq<char>)> {
    Seq::new(listing.len(), |i: int| listing[i]@)
}

/// The entry that an instrument gives, if it can be read: its pair, and its
/// multiplier, which is above zero.
pub open spec fn entry_of(listed: (Option<Seq<char>>, Seq<char>)) -> Option<(Seq<char>, Amount)> {
    match (listed.0, multiplier_of(listed.1)) {
        (Some(pair), Some(m)) => Some((pair, m)),
        _ => None,
    }
}

/// The entries that a listing gives, if every one of its instruments can be
/// read.
pub open spec fn entries_of(listing: Seq<(Option<Seq<char>>, Seq<char>)>) -> Option<
    Seq<(Seq<char>, Amount)>,
>
    decreases listing.len(),
{
    if listing.len() == 0 {
        Some(Seq::empty())
    } else {
        match (entries_of(listing.drop_last()), entry_of(listing.last())) {
            (Some(entries), Some(entry)) => Some(entries.push(entry)),
            _ => None,
        }
    }
}

/// Pair and multiplier of each of `specs`.
pub open spec fn entries(specs: Seq<ContractSpec>) -> Seq<(Seq<char>, Amount)> {
    Seq::new(specs.len(), |i: int| (specs[i].pair@, specs[i].multiplier))
}

/// A listing of which a beginning cannot be read cannot be read.
pub proof fn lemma_entries_of_prefix(listing: Seq<(Option<Seq<char>>, Seq<char>)>, n: int)
    requires
        0 <= n <= listing.len(),
        entries_of(listing.take(n)) is None,
    ensures
        entries_of(listing) is None,
    decreases listing.len() - n,
{
    if n == listing.len() {
        assert(listing.take(n) =~= listing);
    } else {
        assert(listing.take(n + 1).drop_last() =~= listing.take(n));
        lemma_entries_of_prefix(listing, n + 1);
    }
}

/// Reads a listing into contract specs. `None` where an instrument cannot
/// be read.
pub fn contract_specs(listing: &Vec<Listed>) -> (r: Option<Vec<ContractSpec>>)
    ensures
        match r {
            Some(specs) => entries_of(listing_of(listing@)) == Some(entries(specs@)),
            None => entries_of(listing_of(listing@)) is None,
        },
        r matches Some(specs) ==> forall|i: int|
            0 <= i < specs.len() ==> (#[trigger] specs[i]).wf(),
{
    let mut specs: Vec<ContractSpec> = Vec::new();
    let mut i: usize = 0;
    let ghost all = listing_of(listing@);
    assert(entries(specs@) =~= Seq::empty());
    while i < listing.len()
        invariant
            i <= listing.len(),
            all == listing_of(listing@),
            entries_of(all.take(i as int)) == Some(entries(specs@)),
            forall|j: int| 0 <= j < specs.len() ==> (#[trigger] specs[j]).wf(),
        decreases listing.len() - i,
    {
        let listed = &listing[i];
        let amount = multiplier(&chars_of(listed.multiplier.as_str()));
        proof {
            assert(all.take(i + 1).drop_last() =~= all.take(i as int));
            assert(all.take(i + 1).last() == listing[i as int]@);
        }
        match (&listed.pair, amount) {
            (Some(pair), Some(amount)) => {
                let ghost before = entries(specs@);
                specs.push(ContractSpec { pair: pair.clone(), multiplier: amount });
                assert(entries(specs@) =~= before.push((pair@, amount)));
            },
            _ => {
                proof {
                    lemma_entries_of_prefix(all, i + 1);
                }
                return None;
            },
        }
        i += 1;
    }
    assert(all.take(i as int) =~= all);
    Some(specs)
}

} // verus!

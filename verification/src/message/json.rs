//! JSON values.
//!
//! A message of an exchange is a JSON value. The functions of this module
//! read such a value the way the exchanges' messages are read: a field of
//! an object by its name, a text, a whole number, the items of an array.

use crate::message::number::{i64_of, parse_i64};
use crate::text::{chars_of, same_text};
use vstd::prelude::*;

verus! {

/// A JSON value.
#[derive(Debug)]
pub enum Json {
    Null,
    Bool(bool),
    /// A whole number that fits `i64`.
    Integer(i64),
    /// Any other number, as the decimal number that writes it.
    Real(String),
    Text(String),
    Array(Vec<Json>),
    /// The fields of an object. No name occurs twice.
    Object(Vec<Field>),
}

/// A field of an object.
#[derive(Debug)]
pub struct Field {
    pub name: String,
    pub value: Json,
}

/// The value of the first of `fields` that is called `name`.
pub open spec fn lookup(fields: Seq<Field>, name: Seq<char>) -> Option<Json>
    decreases fields.len(),
{
    if fields.len() == 0 {
        None
    } else if fields[0].name@ == name {
        Some(fields[0].value)
    } else {
        lookup(fields.drop_first(), name)
    }
}

impl Json {
    /// The field called `name`, where the value is an object that has one.
    pub open spec fn field(self, name: Seq<char>) -> Option<Json> {
        match self {
            Json::Object(fields) => lookup(fields@, name),
            _ => None,
        }
    }

    /// Whether the value is an object with a field called `name`.
    pub open spec fn has(self, name: Seq<char>) -> bool {
        self.field(name) is Some
    }

    /// The text, where the value is one.
    pub open spec fn text(self) -> Option<Seq<char>> {
        match self {
            Json::Text(t) => Some(t@),
            _ => None,
        }
    }

    /// The whole number, where the value is one.
    pub open spec fn whole(self) -> Option<i64> {
        match self {
            Json::Integer(n) => Some(n),
            _ => None,
        }
    }

    /// The items, where the value is an array.
    pub open spec fn items(self) -> Option<Seq<Json>> {
        match self {
            Json::Array(items) => Some(items@),
            _ => None,
        }
    }

    /// The text of the field called `name`, where the value has such a
    /// field and it is a text.
    pub open spec fn text_of(self, name: Seq<char>) -> Option<Seq<char>> {
        match self.field(name) {
            Some(value) => value.text(),
            None => None,
        }
    }

    /// The whole number of the field called `name`, where the value has such
    /// a field and it is a whole number.
    pub open spec fn whole_of(self, name: Seq<char>) -> Option<i64> {
        match self.field(name) {
            Some(value) => value.whole(),
            None => None,
        }
    }

    /// The items of the field called `name`, where the value has such a
    /// field and it is an array.
    pub open spec fn items_of(self, name: Seq<char>) -> Option<Seq<Json>> {
        match self.field(name) {
            Some(value) => value.items(),
            None => None,
        }
    }

    /// The field called `name`, where the value is an object that has one.
    pub fn get(&self, name: &str) -> (r: Option<&Json>)
        ensures
            match r {
                Some(value) => self.field(name@) == Some(*value),
                None => self.field(name@) is None,
            },
    {
        match self {
            Json::Object(fields) => {
                let wanted = chars_of(name);
                let mut i: usize = 0;
                assert(fields@.skip(0) =~= fields@);
                while i < fields.len()
                    invariant
                        i <= fields.len(),
                        wanted@ == name@,
                        self.field(name@) == lookup(fields@.skip(i as int), name@),
                    decreases fields.len() - i,
                {
                    proof {
                        assert(fields@.skip(i as int)[0] == fields[i as int]);
                        assert(fields@.skip(i as int).drop_first() =~= fields@.skip(i + 1));
                    }
                    if same_text(&chars_of(fields[i].name.as_str()), &wanted) {
                        return Some(&fields[i].value);
                    }
                    i += 1;
                }
                None
            },
            _ => None,
        }
    }

    /// Whether the value is an object with a field called `name`.
    pub fn contains_key(&self, name: &str) -> (r: bool)
        ensures
            r == self.has(name@),
    {
        self.get(name).is_some()
    }

    /// The text, where the value is one.
    pub fn as_str(&self) -> (r: Option<&str>)
        ensures
            match r {
                Some(t) => self.text() == Some(t@),
                None => self.text() is None,
            },
    {
        match self {
            Json::Text(t) => Some(t.as_str()),
            _ => None,
        }
    }

    /// The whole number, where the value is one.
    pub fn as_i64(&self) -> (r: Option<i64>)
        ensures
            r == self.whole(),
    {
        match self {
            Json::Integer(n) => Some(*n),
            _ => None,
        }
    }

    /// The items, where the value is an array.
    pub fn as_array(&self) -> (r: Option<&Vec<Json>>)
        ensures
            match r {
                Some(items) => self.items() == Some(items@),
                None => self.items() is None,
            },
    {
        match self {
            Json::Array(items) => Some(items),
            _ => None,
        }
    }

    /// Whether the value is an object.
    pub fn is_object(&self) -> (r: bool)
        ensures
            r == (self is Object),
    {
        match self {
            Json::Object(_) => true,
            _ => false,
        }
    }

    /// The text of the field called `name`.
    pub fn str_at(&self, name: &str) -> (r: Option<&str>)
        ensures
            match r {
                Some(t) => self.text_of(name@) == Some(t@),
                None => self.text_of(name@) is None,
            },
    {
        match self.get(name) {
            Some(value) => value.as_str(),
            None => None,
        }
    }

    /// The whole number of the field called `name`.
    pub fn i64_at(&self, name: &str) -> (r: Option<i64>)
        ensures
            r == self.whole_of(name@),
    {
        match self.get(name) {
            Some(value) => value.as_i64(),
            None => None,
        }
    }

    /// The field called `name`, or nothing where the value has none.
    pub open spec fn at(self, name: Seq<char>) -> Json {
        match self.field(name) {
            Some(value) => value,
            None => Json::Null,
        }
    }

    /// The items of the field called `name`.
    pub fn array_at(&self, name: &str) -> (r: Option<&Vec<Json>>)
        ensures
            match r {
                Some(items) => self.items_of(name@) == Some(items@),
                None => self.items_of(name@) is None,
            },
    {
        match self.get(name) {
            Some(value) => value.as_array(),
            None => None,
        }
    }
}

/// Where in a value a whole number is to be read.
#[derive(Clone, Copy, Debug)]
pub enum Reading {
    /// A whole number, in the field of that name.
    Whole(&'static str),
    /// A whole number, in the item at that position.
    WholeAt(usize),
    /// A text that writes a whole number, in the field of that name.
    Number(&'static str),
}

/// The whole number that stands in `value` where `reading` says.
pub open spec fn read(value: Json, reading: Reading) -> Option<i64> {
    match reading {
        Reading::Whole(name) => value.whole_of(name@),
        Reading::WholeAt(at) => match value.items() {
            Some(items) => if at < items.len() {
                items[at as int].whole()
            } else {
                None
            },
            None => None,
        },
        Reading::Number(name) => match value.text_of(name@) {
            Some(text) => i64_of(text),
            None => None,
        },
    }
}

/// The whole numbers that stand in each of `items` where `reading` says, if
/// one stands in every item.
pub open spec fn read_each(items: Seq<Json>, reading: Reading) -> Option<Seq<i64>>
    decreases items.len(),
{
    if items.len() == 0 {
        Some(Seq::empty())
    } else {
        match (read_each(items.drop_last(), reading), read(items.last(), reading)) {
            (Some(numbers), Some(n)) => Some(numbers.push(n)),
            _ => None,
        }
    }
}

/// The text of the field called `name` of each of `items`, if every item
/// has one.
pub open spec fn text_of_each(items: Seq<Json>, name: Seq<char>) -> Option<Seq<Seq<char>>>
    decreases items.len(),
{
    if items.len() == 0 {
        Some(Seq::empty())
    } else {
        match (text_of_each(items.drop_last(), name), items.last().text_of(name)) {
            (Some(texts), Some(t)) => Some(texts.push(t)),
            _ => None,
        }
    }
}

/// The texts of some strings.
pub open spec fn texts(strings: Seq<String>) -> Seq<Seq<char>> {
    Seq::new(strings.len(), |i: int| strings[i]@)
}

/// Items of which a beginning cannot be read cannot be read.
pub proof fn lemma_read_each_prefix(items: Seq<Json>, reading: Reading, n: int)
    requires
        0 <= n <= items.len(),
        read_each(items.take(n), reading) is None,
    ensures
        read_each(items, reading) is None,
    decreases items.len() - n,
{
    if n == items.len() {
        assert(items.take(n) =~= items);
    } else {
        assert(items.take(n + 1).drop_last() =~= items.take(n));
        lemma_read_each_prefix(items, reading, n + 1);
    }
}

/// Items of which a beginning lacks a text lack a text.
pub proof fn lemma_text_of_each_prefix(items: Seq<Json>, name: Seq<char>, n: int)
    requires
        0 <= n <= items.len(),
        text_of_each(items.take(n), name) is None,
    ensures
        text_of_each(items, name) is None,
    decreases items.len() - n,
{
    if n == items.len() {
        assert(items.take(n) =~= items);
    } else {
        assert(items.take(n + 1).drop_last() =~= items.take(n));
        lemma_text_of_each_prefix(items, name, n + 1);
    }
}

/// The whole number that stands in `value` where `reading` says.
pub fn read_i64(value: &Json, reading: &Reading) -> (r: Option<i64>)
    ensures
        r == read(*value, *reading),
{
    match reading {
        Reading::Whole(name) => value.i64_at(name),
        Reading::WholeAt(at) => match value.as_array() {
            Some(items) => if *at < items.len() {
                items[*at].as_i64()
            } else {
                None
            },
            None => None,
        },
        Reading::Number(name) => match value.str_at(name) {
            Some(text) => parse_i64(text),
            None => None,
        },
    }
}

/// The whole numbers that stand in each of `items` where `reading` says.
/// `None` where an item holds none there.
pub fn read_all(items: &Vec<Json>, reading: &Reading) -> (r: Option<Vec<i64>>)
    ensures
        match r {
            Some(numbers) => read_each(items@, *reading) == Some(numbers@),
            None => read_each(items@, *reading) is None,
        },
{
    let mut numbers: Vec<i64> = Vec::new();
    let mut i: usize = 0;
    while i < items.len()
        invariant
            i <= items.len(),
            read_each(items@.take(i as int), *reading) == Some(numbers@),
        decreases items.len() - i,
    {
        proof {
            assert(items@.take(i + 1).drop_last() =~= items@.take(i as int));
            assert(items@.take(i + 1).last() == items[i as int]);
        }
        match read_i64(&items[i], reading) {
            Some(n) => {
                numbers.push(n);
            },
            None => {
                proof {
                    lemma_read_each_prefix(items@, *reading, i + 1);
                }
                return None;
            },
        }
        i += 1;
    }
    assert(items@.take(i as int) =~= items@);
    Some(numbers)
}

/// The values of some fields.
pub open spec fn values(fields: Seq<Field>) -> Seq<Json> {
    Seq::new(fields.len(), |i: int| fields[i].value)
}

/// The whole numbers that stand in the value of each of `fields` where
/// `reading` says. `None` where a value holds none there.
pub fn read_all_values(fields: &Vec<Field>, reading: &Reading) -> (r: Option<Vec<i64>>)
    ensures
        match r {
            Some(numbers) => read_each(values(fields@), *reading) == Some(numbers@),
            None => read_each(values(fields@), *reading) is None,
        },
{
    let mut numbers: Vec<i64> = Vec::new();
    let mut i: usize = 0;
    let ghost all = values(fields@);
    while i < fields.len()
        invariant
            i <= fields.len(),
            all == values(fields@),
            read_each(all.take(i as int), *reading) == Some(numbers@),
        decreases fields.len() - i,
    {
        proof {
            assert(all.take(i + 1).drop_last() =~= all.take(i as int));
            assert(all.take(i + 1).last() == fields[i as int].value);
        }
        match read_i64(&fields[i].value, reading) {
            Some(n) => {
                numbers.push(n);
            },
            None => {
                proof {
                    lemma_read_each_prefix(all, *reading, i + 1);
                }
                return None;
            },
        }
        i += 1;
    }
    assert(all.take(i as int) =~= all);
    Some(numbers)
}

/// The text of the field called `name` of each of `items`. `None` where an
/// item has no such text.
pub fn texts_at(items: &Vec<Json>, name: &str) -> (r: Option<Vec<String>>)
    ensures
        match r {
            Some(found) => text_of_each(items@, name@) == Some(texts(found@)),
            None => text_of_each(items@, name@) is None,
        },
{
    let mut found: Vec<String> = Vec::new();
    let mut i: usize = 0;
    assert(texts(found@) =~= Seq::empty());
    while i < items.len()
        invariant
            i <= items.len(),
            text_of_each(items@.take(i as int), name@) == Some(texts(found@)),
        decreases items.len() - i,
    {
        proof {
            assert(items@.take(i + 1).drop_last() =~= items@.take(i as int));
            assert(items@.take(i + 1).last() == items[i as int]);
        }
        match items[i].str_at(name) {
            Some(t) => {
                let ghost before = texts(found@);
                let owned = crate::text::string_of(&chars_of(t));
                found.push(owned);
                assert(texts(found@) =~= before.push(t@));
            },
            None => {
                proof {
                    lemma_text_of_each_prefix(items@, name@, i + 1);
                }
                return None;
            },
        }
        i += 1;
    }
    assert(items@.take(i as int) =~= items@);
    Some(found)
}

} // verus!

//! Binance messages.

use crate::text::{before, chars_of, find_char, slice, string_of, upper, uppercased};
use crate::market::MarketKind;
use crate::message::order::{read_plain_order, Order};
use crate::message::types::MessageError;
use vstd::prelude::*;

verus! {

/// The symbol that a stream is about: what stands before the first `@` of
/// its name, in upper case.
pub open spec fn symbol_of(stream: Seq<char>) -> Seq<char> {
    upper(before(stream, '@'))
}

/// The symbol that a stream is about.
pub fn stream_symbol(stream: &str) -> (r: String)
    ensures
        r@ == symbol_of(stream@),
{
    let s = chars_of(stream);
    let name = slice(&s, 0, find_char(&s, '@'));
    string_of(&uppercased(&name))
}

/// The level of the spot order book that two decimal numbers write, price
/// and quantity in base coins.
pub fn read_level(price: &str, quantity: &str) -> (r: Result<Order, MessageError>)
    ensures
        r == read_plain_order(price@, quantity@, MarketKind::Spot),
{
    Order::read_plain(price, quantity, MarketKind::Spot)
}

} // verus!

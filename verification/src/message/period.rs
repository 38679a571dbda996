//! Candlestick periods.
//!
//! A period is written as a count and a unit. The time a candlestick began
//! is the time it ended less its period.

use crate::message::number::{i64_of, integer, latest, latest_of};
use crate::message::types::MessageError;
use vstd::prelude::*;

verus! {

/// The number `n`, if it fits `i64`.
pub open spec fn fit_i64(n: Option<int>) -> Option<i64> {
    match n {
        Some(n) => if i64::MIN <= n <= i64::MAX {
            Some(n as i64)
        } else {
            None
        },
        None => None,
    }
}

/// The count that `count` writes, in units of `unit`.
pub open spec fn scaled(count: Seq<char>, unit: int) -> Option<int> {
    match i64_of(count) {
        Some(n) => Some(n * unit),
        None => None,
    }
}

/// The count that `count` writes, in units of `unit`. `None` where `count`
/// is no whole number, or where the product does not fit.
pub fn scale(count: &Vec<char>, unit: i64) -> (r: Option<i64>)
    ensures
        r == fit_i64(scaled(count@, unit as int)),
{
    match integer(count) {
        Some(n) => n.checked_mul(unit),
        None => None,
    }
}

/// The time at which a candlestick began that ended at `end` after
/// `duration`. `None` where it does not fit.
pub fn begin_time(end: i64, duration: i64) -> (r: Option<i64>)
    ensures
        r == fit_i64(Some(end - duration)),
{
    end.checked_sub(duration)
}

/// A time in seconds, in milliseconds. `None` where it does not fit.
pub fn millis(seconds: i64) -> (r: Option<i64>)
    ensures
        r == fit_i64(Some(seconds * 1000)),
{
    seconds.checked_mul(1000)
}

/// The latest of `times`, of which there is at least one, each counted in
/// units of `unit` milliseconds.
pub open spec fn latest_millis_of(times: Seq<i64>, unit: int) -> Result<Option<i64>, MessageError> {
    match latest_of(times) {
        Some(t) => match fit_i64(Some(t * unit)) {
            Some(t) => Ok(Some(t)),
            None => Err(MessageError::BadField),
        },
        None => Err(MessageError::EmptyData),
    }
}

/// The latest of `times`, in milliseconds. An error where there are no
/// times, or where the time does not fit.
pub fn latest_millis(times: &Vec<i64>, unit: i64) -> (r: Result<Option<i64>, MessageError>)
    ensures
        r == latest_millis_of(times@, unit as int),
{
    match latest(times) {
        Some(t) => match t.checked_mul(unit) {
            Some(t) => Ok(Some(t)),
            None => Err(MessageError::BadField),
        },
        None => Err(MessageError::EmptyData),
    }
}

/// A whole number that was read, in units of `unit` milliseconds.
pub open spec fn in_millis_of(n: Option<i64>, unit: int) -> Result<Option<i64>, MessageError> {
    match n {
        Some(n) => match fit_i64(Some(n * unit)) {
            Some(t) => Ok(Some(t)),
            None => Err(MessageError::BadField),
        },
        None => Err(MessageError::BadField),
    }
}

/// A whole number that was read, in milliseconds. An error where none was
/// read, or where the time does not fit.
pub fn in_millis(n: Option<i64>, unit: i64) -> (r: Result<Option<i64>, MessageError>)
    ensures
        r == in_millis_of(n, unit as int),
{
    match n {
        Some(n) => match n.checked_mul(unit) {
            Some(t) => Ok(Some(t)),
            None => Err(MessageError::BadField),
        },
        None => Err(MessageError::BadField),
    }
}

} // verus!

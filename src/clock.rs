//! The wall clock, read through chrono.
use chrono::{Local, NaiveTime, Timelike};
use crate::text::is_digit;
use vstd::prelude::*;

verus! {

/// The hour and minute that chrono reads from `s` in the `%H:%M` format.
pub uninterp spec fn clock_of(s: Seq<char>) -> Option<(u32, u32)>;

/// Relies on chrono's `Local::now` formatted as `%H:%M:%S`: each field is
/// two zero-padded digits, the fields joined by colons.
#[verifier::external_body]
pub fn get_current_time() -> (r: String)
    ensures
        r@.len() == 8,
        r@[2] == ':' && r@[5] == ':',
        forall|i: int| 0 <= i < 8 && i != 2 && i != 5 ==> is_digit(#[trigger] r@[i]),
{
    Local::now().format("%H:%M:%S").to_string()
}

/// Relies on chrono's `NaiveTime::num_seconds_from_midnight` of the local
/// time now: whole seconds since midnight, below one day.
#[verifier::external_body]
pub(crate) fn seconds_since_midnight() -> (r: u32)
    ensures
        r < 86400,
{
    Local::now().time().num_seconds_from_midnight()
}

/// Relies on chrono's `NaiveTime::parse_from_str(s, "%H:%M")`: on success the
/// hour and minute of a valid time of day.
#[verifier::external_body]
pub(crate) fn parse_clock(s: &str) -> (r: Option<(u32, u32)>)
    ensures
        r == clock_of(s@),
        r matches Some((h, m)) ==> h < 24 && m < 60,
{
    NaiveTime::parse_from_str(s, "%H:%M").ok().map(|t| (t.hour(), t.minute()))
}

} // verus!

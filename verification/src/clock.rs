//! Timestamps as date and time of day in a time zone.

use crate::text::opt_view;
use vstd::prelude::*;

verus! {

/// What chrono displays for the moment `secs` seconds after the Unix epoch
/// in the zone `east` seconds east of Greenwich: the date, the time of day
/// and the zone's offset. There is none where the moment lies outside the
/// years chrono can hold, or the offset is a day or more.
pub uninterp spec fn time_at_offset(secs: i64, east: i32) -> Option<Seq<char>>;

/// The text of a moment in a zone; empty where there is none.
pub open spec fn time_text_at(secs: i64, east: i32) -> Seq<char> {
    match time_at_offset(secs, east) {
        Some(text) => text,
        None => Seq::empty(),
    }
}

/// Builds the moment with `chrono::DateTime::from_timestamp` and the zone
/// with `chrono::FixedOffset::east_opt`, moves the moment to the zone with
/// `DateTime::with_timezone` and displays it. Nothing is proved of the
/// text; the contract only gives it a name, as a function of the two
/// numbers.
#[verifier::external_body]
pub(crate) fn format_at_offset(secs: i64, east: i32) -> (r: Option<String>)
    ensures
        opt_view(r) == time_at_offset(secs, east),
{
    let moment = chrono::DateTime::from_timestamp(secs, 0)?;
    let zone = chrono::FixedOffset::east_opt(east)?;
    Some(format!("{}", moment.with_timezone(&zone)))
}

} // verus!

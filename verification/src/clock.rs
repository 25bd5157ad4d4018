//! The wall clock, as the `chrono` crate reads it.
use vstd::prelude::*;

verus! {

/// `chrono::NaiveDateTime`, a date and time of day without a time zone.
/// Nothing is assumed about what a value holds: the rows that carry one only
/// pass it on.
#[verifier::external_type_specification]
#[verifier::external_body]
pub struct ExNaiveDateTime(chrono::NaiveDateTime);

/// The present moment in UTC: `chrono::Local::now()`, then
/// `DateTime::naive_utc()`. The moment depends on when the call is made, so
/// nothing is claimed of the result. `chrono` reads the system clock and the
/// time zone of the machine; it gives up where the clock is set before 1970
/// or the time zone data yield no offset for the moment, which no argument
/// of the call can bring about.
#[verifier::external_body]
pub(crate) fn now() -> (moment: chrono::NaiveDateTime) {
    chrono::Local::now().naive_utc()
}

} // verus!

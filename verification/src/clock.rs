//! The wall clock.

use vstd::prelude::*;

verus! {

/// A date and time of day without a time zone, as `chrono` holds it. The
/// library carries such values from the clock into rows and never looks
/// inside one.
#[verifier::external_type_specification]
#[verifier::external_body]
pub struct ExNaiveDateTime(chrono::NaiveDateTime);

/// The current time in UTC, read from the system clock by
/// `chrono::Utc::now` and stripped of its zone by `DateTime::naive_utc`.
///
/// Nothing is claimed of the value: two readings may differ in either
/// direction. `chrono` panics when the system clock reads a time before
/// 1970, or one beyond the years that it can hold.
#[verifier::external_body]
pub(crate) fn now() -> chrono::NaiveDateTime {
    chrono::Utc::now().naive_utc()
}

} // verus!

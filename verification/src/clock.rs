//! Points in time, and the clock that gives the present one.

use vstd::prelude::*;

verus! {

/// A point in time: milliseconds since the Unix epoch, in UTC.
pub type Timestamp = i64;

/// Reads the clock: `chrono::Utc::now()`, as milliseconds since the Unix epoch
/// (`DateTime::timestamp_millis`). Nothing is promised of the value: it is
/// whatever the system clock shows. `Utc::now` stops the program if the system
/// clock stands before the Unix epoch.
#[verifier::external_body]
pub(crate) fn now() -> (r: Timestamp) {
    chrono::Utc::now().timestamp_millis()
}

/// Whole seconds from `earlier` to `later`, rounded towards zero.
pub open spec fn seconds_between(later: Timestamp, earlier: Timestamp) -> int {
    let millis = later - earlier;
    if millis >= 0 {
        millis / 1000
    } else {
        -((-millis) / 1000)
    }
}

/// Whole seconds from `earlier` to `later`, rounded towards zero. Negative
/// where `later` lies before `earlier`.
pub fn seconds_since(later: Timestamp, earlier: Timestamp) -> (r: i64)
    ensures
        r == seconds_between(later, earlier),
{
    let millis: i128 = later as i128 - earlier as i128;
    if millis >= 0 {
        let whole: u128 = (millis as u128) / 1000;
        whole as i64
    } else {
        let whole: u128 = ((-millis) as u128) / 1000;
        -(whole as i64)
    }
}

} // verus!

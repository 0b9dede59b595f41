//! Time-aware certification: the user states how many minutes remain until
//! the next UTC hour boundary; the check reads the clock's minute-of-hour
//! and compares.

use chrono::Timelike;
use vstd::prelude::*;

use crate::outcome::CertOutcome;

verus! {

/// Minutes remaining until the next hour boundary when the clock reads
/// minute m: a full 60 exactly on the hour, else the complement of m.
pub open spec fn spec_minutes_left(m: int) -> int
    recommends
        0 <= m < 60,
{
    if m == 0 {
        60
    } else {
        60 - m
    }
}

/// Compute the minutes remaining until the next hour from the current
/// minute-of-hour.
pub fn minutes_left(m: u32) -> (r: u32)
    requires
        m < 60,
    ensures
        r == spec_minutes_left(m as int),
        m == 0 ==> r == 60,
        m != 0 ==> r == 60 - m,
        1 <= r <= 60,
{
    if m == 0 {
        60
    } else {
        60 - m
    }
}

/// Relies on chrono's Utc::now together with Timelike::minute, which
/// returns the minute number from 0 to 59. The value itself depends on the
/// wall clock, so nothing more is promised of it.
#[verifier::external_body]
fn utc_minute_now() -> (m: u32)
    ensures
        m < 60,
{
    chrono::Utc::now().minute()
}

/// Read the clock and certify the user's count of minutes remaining.
/// Returns the observed minute-of-hour, the minutes actually remaining,
/// and the outcome, pinned to whatever minute the clock showed.
pub fn certify_minutes(user_minutes: u32) -> (r: (u32, u32, CertOutcome))
    ensures
        r.0 < 60,
        r.1 == spec_minutes_left(r.0 as int),
        r.2 == CertOutcome::Pass <==> user_minutes == r.1,
        r.2 == CertOutcome::Fail <==> user_minutes != r.1,
{
    let m = utc_minute_now();
    let left = minutes_left(m);
    let outcome = if user_minutes == left {
        CertOutcome::Pass
    } else {
        CertOutcome::Fail
    };
    (m, left, outcome)
}

} // verus!

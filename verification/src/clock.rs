//! The present time.

use vstd::prelude::*;

verus! {

/// `chrono::Utc::now` and `chrono::DateTime::timestamp`: the seconds that have
/// passed since the epoch, by the clock of the machine. Nothing is known of
/// the result but that it is not negative: `chrono` does not return when the
/// clock is set to a time before the epoch.
#[verifier::external_body]
pub(crate) fn unix_now() -> (now: i64)
    ensures
        now >= 0,
{
    chrono::Utc::now().timestamp()
}

} // verus!

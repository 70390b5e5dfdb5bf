//! Time, as whole nanoseconds since the program's clock was started.

use vstd::prelude::*;

verus! {

/// One thousandth of a second.
pub const MILLISECOND: u64 = 1_000_000;

/// How long after `earlier` the moment `later` is: nothing, if it comes first.
pub open spec fn elapsed(earlier: u64, later: u64) -> u64 {
    if later >= earlier {
        (later - earlier) as u64
    } else {
        0
    }
}

/// How long after `earlier` the moment `later` is: nothing, if it comes first.
#[verifier::when_used_as_spec(elapsed)]
pub fn time_since(earlier: u64, later: u64) -> (passed: u64)
    ensures
        passed == elapsed(earlier, later),
{
    if later >= earlier {
        later - earlier
    } else {
        0
    }
}

/// The time that passed leads from the earlier moment to the later one, and
/// none passes backwards.
pub proof fn passing_time_leads_to_the_later_moment(earlier: u64, later: u64)
    ensures
        earlier <= later ==> earlier + elapsed(earlier, later) == later,
        later <= earlier ==> elapsed(earlier, later) == 0,
{
}

} // verus!

use vstd::prelude::*;
use std::time::Duration;

verus! {

/// The duration of the given number of milliseconds; depends on that number alone.
pub uninterp spec fn duration_from_millis(millis: u64) -> Duration;

/// Relies on `Duration::from_millis`: the span of `millis` milliseconds.
pub assume_specification[ Duration::from_millis ](millis: u64) -> (r: Duration)
    ensures
        r == duration_from_millis(millis),
;

} // verus!

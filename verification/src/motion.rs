//! When a flight snapshot is extrapolated. The flight model itself works in
//! floating point and is run by the application; this is the integer guard
//! in front of it.

use vstd::prelude::*;

verus! {

/// A snapshot time of 0 marks a snapshot that was never initialised.
pub open spec fn spec_extrapolation_span(last_update_time: i64, current_time: i64) -> Option<int> {
    if last_update_time == 0 || current_time <= last_update_time {
        None
    } else {
        Some(current_time - last_update_time)
    }
}

pub open spec fn span_fits(last_update_time: i64, current_time: i64) -> bool {
    spec_extrapolation_span(last_update_time, current_time) matches Some(d) ==> d <= i64::MAX
}

/// The microseconds over which a snapshot taken at `last_update_time` must
/// be extrapolated to `current_time`; `None` when the stored state is to be
/// used as it is (the snapshot was never initialised, or `current_time` is
/// not after it, as with clock skew or a second look in the same frame).
pub fn extrapolation_span(last_update_time: i64, current_time: i64) -> (r: Option<i64>)
    requires
        span_fits(last_update_time, current_time),
    ensures
        r matches Some(d) ==> spec_extrapolation_span(last_update_time, current_time) == Some(d as int),
        r is None ==> spec_extrapolation_span(last_update_time, current_time) is None,
{
    if last_update_time == 0 || current_time <= last_update_time {
        None
    } else {
        Some(current_time - last_update_time)
    }
}

/// An extrapolation span, when there is one, is positive: time never runs
/// backwards in a prediction.
pub proof fn lemma_span_is_positive(last_update_time: i64, current_time: i64)
    ensures
        spec_extrapolation_span(last_update_time, current_time) matches Some(d) ==> d > 0,
        spec_extrapolation_span(last_update_time, last_update_time) is None,
{
}

} // verus!

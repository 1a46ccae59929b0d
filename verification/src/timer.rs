use vstd::prelude::*;

verus! {

/// Time left on a countdown (milliseconds) after a frame of `delta_ms`
/// milliseconds: `timer - delta_ms`, held at `i64::MIN` where it would go
/// lower. Either way it is above zero exactly when `timer - delta_ms` is.
pub open spec fn counted_down(timer: int, delta_ms: int) -> int {
    if timer - delta_ms < i64::MIN { i64::MIN as int } else { timer - delta_ms }
}

/// Counts a countdown down by one frame of `delta_ms` milliseconds.
pub fn count_down(timer: i64, delta_ms: u32) -> (left: i64)
    ensures
        left == counted_down(timer as int, delta_ms as int),
        (left > 0) == (timer - delta_ms > 0),
{
    let t: i128 = timer as i128 - delta_ms as i128;
    if t < i64::MIN as i128 {
        i64::MIN
    } else {
        t as i64
    }
}

} // verus!

use vstd::prelude::*;

verus! {

/// Relies on chrono's `Local::now`: reads the local wall clock and returns
/// it as seconds (the naive local date and time taken as seconds since the
/// epoch), the scale a task's due time is given in. The value moves with
/// real time, so nothing is promised of it.
#[verifier::external_body]
pub(crate) fn now_local_seconds() -> i64 {
    chrono::Local::now().naive_local().and_utc().timestamp()
}

} // verus!

//! Filter/policy engine: decides whether a merge request has been idle long
//! enough to deserve a notification.

use vstd::prelude::*;

use crate::model::{DwellPolicy, MergeRequestSummary};

verus! {

/// A merge request qualifies for notification when no minimum dwell is
/// configured, or when it has been idle for at least the configured number
/// of seconds. A negative elapsed time (an update timestamp in the future
/// relative to `now`) never qualifies.
pub open spec fn spec_qualifies(updated_at: i64, min_dwell_secs: Option<i64>, now: i64) -> bool {
    match min_dwell_secs {
        None => true,
        Some(d) => now - updated_at >= 0 && now - updated_at >= d,
    }
}

/// Pure per-item decision of the filter/policy engine.
pub fn qualifies(mr: &MergeRequestSummary, policy: &DwellPolicy, now: i64) -> (r: bool)
    ensures
        r == spec_qualifies(mr.updated_at, policy.min_dwell_secs, now),
{
    match policy.min_dwell_secs {
        None => true,
        Some(d) => {
            let elapsed: i128 = now as i128 - mr.updated_at as i128;
            elapsed >= 0 && elapsed >= d as i128
        },
    }
}

/// Without a configured minimum dwell, every merge request qualifies,
/// whatever its timestamp.
pub proof fn lemma_qualifies_no_dwell(updated_at: i64, now: i64)
    ensures
        spec_qualifies(updated_at, None, now),
{
}

/// With a non-negative minimum dwell `d`, a merge request qualifies exactly
/// when its elapsed idle time reaches `d`.
pub proof fn lemma_qualifies_iff_dwell_reached(updated_at: i64, d: i64, now: i64)
    requires
        d >= 0,
    ensures
        spec_qualifies(updated_at, Some(d), now) <==> now - updated_at >= d,
{
}

/// A negative elapsed idle time never qualifies, whatever the configured
/// threshold — even a negative one.
pub proof fn lemma_qualifies_never_on_future_update(updated_at: i64, d: i64, now: i64)
    requires
        now < updated_at,
    ensures
        !spec_qualifies(updated_at, Some(d), now),
{
}

} // verus!

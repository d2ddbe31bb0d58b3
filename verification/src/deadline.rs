//! Deadline and grace-period rules measured against a fixed clock.

use vstd::prelude::*;

verus! {

/// The fixed timestamp that the deadline helpers treat as "now".
pub const NOW: u64 = 100_000;

/// Ten years in seconds: the furthest a deadline may lie ahead of `NOW`.
pub const MAX_DEADLINE_HORIZON_SECS: u64 = 315_360_000;

/// The fixed current timestamp: large enough that subtracting a day never underflows.
pub fn current_timestamp() -> (t: u64)
    ensures
        t == NOW,
{
    NOW
}

/// Whether `deadline` has passed (or is now) and no more than `grace_period_secs`
/// seconds have elapsed since.
pub open spec fn within_grace_period(deadline: u64, grace_period_secs: u64) -> bool {
    deadline <= NOW && NOW - deadline <= grace_period_secs
}

/// Whether `deadline` lies strictly after `NOW` and at most ten years ahead of it.
pub open spec fn deadline_is_valid(deadline: u64) -> bool {
    NOW < deadline && deadline <= NOW + MAX_DEADLINE_HORIZON_SECS
}

/// Checks whether a deadline is within the given grace period relative to the current timestamp.
pub fn is_within_grace_period(deadline: u64, grace_period_secs: u64) -> (r: bool)
    ensures
        r == within_grace_period(deadline, grace_period_secs),
{
    let now = current_timestamp();
    if now < deadline {
        return false;
    }
    now - deadline <= grace_period_secs
}

/// Validates that a deadline is strictly in the future and no more than ten years ahead.
pub fn validate_deadline(deadline: u64) -> (r: Result<(), &'static str>)
    ensures
        r is Ok <==> deadline_is_valid(deadline),
        deadline <= NOW ==> (r matches Err(m) && m@ == "Deadline in past or now"@),
        NOW < deadline && deadline > NOW + MAX_DEADLINE_HORIZON_SECS ==> (r matches Err(m)
            && m@ == "Deadline too far in future"@),
{
    let now = current_timestamp();
    if deadline <= now {
        return Err("Deadline in past or now");
    }
    let max = now.saturating_add(MAX_DEADLINE_HORIZON_SECS);
    if deadline > max {
        return Err("Deadline too far in future");
    }
    Ok(())
}

/// Accepts a deadline only when it lies strictly in the future.
pub fn set_deadline(deadline: u64) -> (r: Result<(), &'static str>)
    ensures
        r is Ok <==> NOW < deadline,
        deadline <= NOW ==> (r matches Err(m) && m@ == "Deadline must be in future"@),
{
    let now = current_timestamp();
    if deadline <= now {
        return Err("Deadline must be in future");
    }
    Ok(())
}

/// A deadline that passes validation is also accepted by the setter.
pub proof fn law_valid_deadline_is_settable(deadline: u64)
    requires
        deadline_is_valid(deadline),
    ensures
        NOW < deadline,
{
}

} // verus!

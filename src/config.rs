use vstd::prelude::*;

verus! {

/// Number of worker threads to run: the configured count when positive,
/// otherwise the host's parallelism, and one when that is unknown.
pub fn worker_threads(configured: i64, available: Option<usize>) -> (r: usize)
    ensures
        configured > 0 && configured <= usize::MAX ==> r == configured,
        !(configured > 0 && configured <= usize::MAX) && available is Some && available->0 >= 1
            ==> r == available->0,
        !(configured > 0 && configured <= usize::MAX) && !(available is Some && available->0 >= 1)
            ==> r == 1,
        r >= 1,
{
    if configured > 0 && configured as u64 <= usize::MAX as u64 {
        configured as usize
    } else {
        match available {
            Some(n) => if n >= 1 { n } else { 1 },
            None => 1,
        }
    }
}

/// How many heartbeat events the announcer emits in `elapsed` time units
/// when it ticks once every `interval` units. Nothing else enters: the
/// cadence does not depend on how much telemetry flows meanwhile.
pub fn heartbeat_events(elapsed: u64, interval: u64) -> (r: u64)
    requires
        interval > 0,
    ensures
        r == elapsed / interval,
{
    elapsed / interval
}

/// The announcer's period in seconds and how many ticks separate two full
/// property reports; `None` when either setting is not positive.
pub fn heartbeat_settings(period_secs: i64, report_factor: i64) -> (r: Option<(u64, usize)>)
    ensures
        (period_secs > 0 && report_factor > 0 && report_factor <= usize::MAX) <==> r is Some,
        match r {
            Some((p, f)) => p == period_secs && f == report_factor,
            None => true,
        },
{
    if period_secs > 0 && report_factor > 0 && report_factor as u64 <= usize::MAX as u64 {
        Some((period_secs as u64, report_factor as usize))
    } else {
        None
    }
}

} // verus!

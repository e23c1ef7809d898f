use vstd::prelude::*;

verus! {

/// Whether a resource limit is passed: each limit counts only where it is set (not zero).
pub open spec fn count_limits_exceeded(
    memory_usage: u64,
    max_memory: u64,
    active_tasks: usize,
    max_tasks: usize,
    pending_requests: usize,
    max_pending_requests: usize,
) -> bool {
    (max_memory > 0 && memory_usage > max_memory) || (max_tasks > 0 && active_tasks > max_tasks) || (
    max_pending_requests > 0 && pending_requests > max_pending_requests)
}

/// Whether memory, task or pending-request usage passes its limit (zero meaning no limit);
/// the CPU limit, a fraction, is checked beside it.
pub fn limits_exceeded(
    memory_usage: u64,
    max_memory: u64,
    active_tasks: usize,
    max_tasks: usize,
    pending_requests: usize,
    max_pending_requests: usize,
) -> (r: bool)
    ensures
        r == count_limits_exceeded(
            memory_usage,
            max_memory,
            active_tasks,
            max_tasks,
            pending_requests,
            max_pending_requests,
        ),
{
    (max_memory > 0 && memory_usage > max_memory) || (max_tasks > 0 && active_tasks > max_tasks) || (
    max_pending_requests > 0 && pending_requests > max_pending_requests)
}

} // verus!

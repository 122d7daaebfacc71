//! Timing of PHP functions of a CLI process.
use crate::cli::cli_function_report;
use crate::function_observer::{
    last_position, observed_end, taken, FunctionFrame, FunctionObservation, FunctionTimes,
};
use crate::probe::ProbeEvent;
use vstd::prelude::*;

verus! {

/// The call with execute data at `key` begins now.
pub fn observer_begin(times: &mut FunctionTimes, key: usize)
    ensures
        final(times)@.len() == old(times)@.len() + 1,
        final(times)@.drop_last() == old(times)@,
        final(times)@.last().0 == key,
{
    crate::function_observer::observer_begin(times, key);
}

/// The call with execute data at `key` of process `pid` ends; it is reported
/// with `cli_request_function` when it ran longer than `threshold` and its
/// frame can be read. The frame is read only for a call over the threshold.
pub fn observer_end<F: FnOnce() -> Option<FunctionFrame>>(
    times: &mut FunctionTimes,
    key: usize,
    threshold: u64,
    pid: u64,
    read_frame: F,
) -> (r: Option<ProbeEvent>)
    requires
        call_requires(read_frame, ()),
    ensures
        final(times)@ == taken(old(times)@, key),
        exists|obs: Option<FunctionObservation>|
            #[trigger] observed_end(old(times)@, key, threshold, read_frame, obs) && r
                == cli_function_report(obs, pid),
        last_position(old(times)@, key) is None ==> r is None,
{
    crate::cli::observer_end(times, key, threshold, read_frame, pid)
}

} // verus!

//! Timing of PHP function calls: a stack of pending calls keyed by the
//! address of their execute data, and the observation made when a call ends.
use quanta::Instant;
use vstd::prelude::*;

verus! {

#[verifier::external_type_specification]
#[verifier::external_body]
pub struct ExInstant(quanta::Instant);

/// Calls `quanta::Instant::now`. Nothing is stated of the instant returned:
/// it is a reading of the clock.
#[verifier::external_body]
fn clock_now() -> Instant {
    Instant::now()
}

/// Calls `quanta::Instant::elapsed` and takes the `Duration` in nanoseconds.
/// quanta computes it as `Duration::from_nanos` of a `u64` difference of clock
/// readings, saturating at zero, so the count fits a `u64`; which count comes
/// back depends on the clock and is not stated.
#[verifier::external_body]
fn elapsed_nanos(start: &Instant) -> (nanos: u128)
    ensures
        nanos <= u64::MAX,
{
    start.elapsed().as_nanos()
}

/// A pending call: the address of its execute data and the instant it began.
pub type TimedCall = (usize, Instant);

/// The index of the most recent pending call with the given key.
pub open spec fn last_position(entries: Seq<TimedCall>, key: usize) -> Option<int>
    decreases entries.len(),
{
    if entries.len() == 0 {
        None
    } else if entries.last().0 == key {
        Some(entries.len() - 1)
    } else {
        last_position(entries.drop_last(), key)
    }
}

/// `last_position` picks the most recent call with the key, and finds none
/// only when no pending call has the key.
pub proof fn lemma_last_position(entries: Seq<TimedCall>, key: usize)
    ensures
        match last_position(entries, key) {
            None => forall|j: int| 0 <= j < entries.len() ==> entries[j].0 != key,
            Some(p) => {
                &&& 0 <= p < entries.len()
                &&& entries[p].0 == key
                &&& forall|j: int| p < j < entries.len() ==> entries[j].0 != key
            },
        },
    decreases entries.len(),
{
    if entries.len() > 0 && entries.last().0 != key {
        let rest = entries.drop_last();
        lemma_last_position(rest, key);
        assert forall|j: int| 0 <= j < rest.len() implies rest[j] == entries[j] by {}
    }
}

/// `s` after `Vec::swap_remove(i)`: the last entry takes the place of entry `i`.
pub open spec fn swap_removed<T>(s: Seq<T>, i: int) -> Seq<T> {
    s.update(i, s.last()).drop_last()
}

/// The stack after taking the most recent call with `key`: unchanged when
/// there is none, otherwise that entry swap-removed.
pub open spec fn taken(entries: Seq<TimedCall>, key: usize) -> Seq<TimedCall> {
    match last_position(entries, key) {
        None => entries,
        Some(p) => swap_removed(entries, p),
    }
}

/// Ending a call right after it began leaves the pending calls as they were.
pub proof fn lemma_take_undoes_set(entries: Seq<TimedCall>, key: usize, start: Instant)
    ensures
        last_position(entries.push((key, start)), key) == Some(entries.len() as int),
        taken(entries.push((key, start)), key) == entries,
{
    let pushed = entries.push((key, start));
    assert(pushed.last() == (key, start));
    assert(swap_removed(pushed, entries.len() as int) =~= entries);
}

/// Calls that end in the reverse order of their beginning (an inner call
/// inside an outer one) leave the pending calls as they were.
pub proof fn lemma_nested_calls(
    entries: Seq<TimedCall>,
    outer: usize,
    outer_start: Instant,
    inner: usize,
    inner_start: Instant,
)
    ensures
        taken(taken(entries.push((outer, outer_start)).push((inner, inner_start)), inner), outer)
            == entries,
{
    lemma_take_undoes_set(entries.push((outer, outer_start)), inner, inner_start);
    lemma_take_undoes_set(entries, outer, outer_start);
}

/// Ending a call removes exactly one pending call, the most recent one with
/// its key; every other pending call stays pending.
pub proof fn lemma_take_keeps_other_calls(entries: Seq<TimedCall>, key: usize)
    ensures
        match last_position(entries, key) {
            None => taken(entries, key) == entries,
            Some(p) => {
                &&& taken(entries, key).len() == entries.len() - 1
                &&& entries[p].0 == key
                &&& forall|j: int|
                    0 <= j < entries.len() && j != p ==> taken(entries, key).contains(
                        #[trigger] entries[j],
                    )
            },
        },
{
    lemma_last_position(entries, key);
    if let Some(p) = last_position(entries, key) {
        let after = taken(entries, key);
        let last = entries.len() - 1;
        assert forall|j: int| 0 <= j < entries.len() && j != p implies after.contains(
            #[trigger] entries[j],
        ) by {
            if j == last {
                assert(after[p] == entries[j]);
            } else {
                assert(after[j] == entries[j]);
            }
        }
    }
}

/// The elapsed time that is reported for a measured duration of `nanos`
/// nanoseconds: `nanos` as a `u64`, when it exceeds the threshold.
pub open spec fn reported_elapsed(nanos: u128, threshold: u64) -> Option<u64> {
    if (nanos as u64) > threshold {
        Some(nanos as u64)
    } else {
        None
    }
}

/// A measured duration is reported exactly when it exceeds the threshold
/// (a call that takes exactly the threshold is not), and it is reported as
/// measured.
pub proof fn lemma_reported_only_over_threshold(nanos: u128, threshold: u64)
    requires
        nanos <= u64::MAX,
    ensures
        reported_elapsed(nanos, threshold) is Some <==> nanos > threshold,
        reported_elapsed(nanos, threshold) matches Some(e) ==> e == nanos,
{
}

/// `compass.function_threshold`: only calls whose elapsed time exceeds it are reported.
pub fn is_over_function_threshold(elapsed: u64, threshold: u64) -> (over: bool)
    ensures
        over == (elapsed > threshold),
{
    elapsed > threshold
}

/// The elapsed time reported for a call measured at `nanos` nanoseconds.
pub fn elapsed_if_over_threshold(nanos: u128, threshold: u64) -> (r: Option<u64>)
    ensures
        r == reported_elapsed(nanos, threshold),
{
    let elapsed = nanos as u64;
    if is_over_function_threshold(elapsed, threshold) {
        Some(elapsed)
    } else {
        None
    }
}

/// What is read of a PHP call frame when the call ends.
#[derive(Debug, PartialEq, Eq)]
pub struct FunctionFrame {
    /// The fully-qualified function or method name.
    pub function_name: Vec<u8>,
    /// PHP's memory usage, in bytes.
    pub memory: u64,
}

/// A call that ran longer than the threshold.
#[derive(Debug, PartialEq, Eq)]
pub struct FunctionObservation {
    /// Wall-clock time of the call, in nanoseconds.
    pub elapsed: u64,
    /// The fully-qualified function or method name.
    pub function_name: Vec<u8>,
    /// PHP's memory usage when the call ended, in bytes.
    pub memory: u64,
}

/// `read_frame` may return a frame with this name and memory usage.
pub open spec fn frame_read<F: FnOnce() -> Option<FunctionFrame>>(
    read_frame: F,
    function_name: Seq<u8>,
    memory: u64,
) -> bool {
    exists|frame: FunctionFrame|
        #[trigger] call_ensures(read_frame, (), Some(frame)) && frame.function_name@
            == function_name && frame.memory == memory
}

/// The calls that have begun and not yet ended, most recent last.
pub struct FunctionTimes {
    entries: Vec<TimedCall>,
}

impl View for FunctionTimes {
    type V = Seq<TimedCall>;

    closed spec fn view(&self) -> Seq<TimedCall> {
        self.entries@
    }
}

impl FunctionTimes {
    /// An empty stack.
    pub fn new() -> (times: FunctionTimes)
        ensures
            times@ == Seq::<TimedCall>::empty(),
    {
        FunctionTimes { entries: Vec::with_capacity(32) }
    }

    /// The number of pending calls.
    pub fn len(&self) -> (n: usize)
        ensures
            n == self@.len(),
    {
        self.entries.len()
    }

    /// The keys of the pending calls, oldest first.
    pub fn keys(&self) -> (keys: Vec<usize>)
        ensures
            keys@.len() == self@.len(),
            forall|i: int| 0 <= i < keys@.len() ==> keys@[i] == self@[i].0,
    {
        let mut keys: Vec<usize> = Vec::new();
        let mut i: usize = 0;
        while i < self.entries.len()
            invariant
                i <= self@.len(),
                self@ == self.entries@,
                keys@.len() == i,
                forall|j: int| 0 <= j < i ==> keys@[j] == self@[j].0,
            decreases self@.len() - i,
        {
            keys.push(self.entries[i].0);
            i = i + 1;
        }
        keys
    }
    /// The index of the most recent pending call with `key`.
    fn rposition(&self, key: usize) -> (pos: Option<usize>)
        ensures
            match pos {
                None => last_position(self@, key) is None,
                Some(p) => last_position(self@, key) == Some(p as int),
            },
    {
        let mut i: usize = self.entries.len();
        proof {
            assert(self@.subrange(0, i as int) =~= self@);
        }
        while i > 0
            invariant
                i <= self@.len(),
                self@ == self.entries@,
                last_position(self@, key) == last_position(self@.subrange(0, i as int), key),
            decreases i,
        {
            let ghost prefix = self@.subrange(0, i as int);
            assert(prefix.drop_last() =~= self@.subrange(0, i - 1));
            if self.entries[i - 1].0 == key {
                return Some(i - 1);
            }
            i = i - 1;
        }
        assert(self@.subrange(0, 0) =~= Seq::<TimedCall>::empty());
        None
    }
}

/// Records that the call with execute data at `key` began at `now`.
pub fn set_function_time(times: &mut FunctionTimes, key: usize, now: Instant)
    ensures
        final(times)@ == old(times)@.push((key, now)),
{
    times.entries.push((key, now));
}

/// The start instant of the most recent pending call with `key`.
pub open spec fn start_of(entries: Seq<TimedCall>, key: usize) -> Option<Instant> {
    match last_position(entries, key) {
        None => None,
        Some(p) => Some(entries[p].1),
    }
}

/// What ending the call with `key` may report: nothing without a pending
/// call, otherwise the reported elapsed time of some measured duration.
pub open spec fn taken_elapsed(
    entries: Seq<TimedCall>,
    key: usize,
    threshold: u64,
    elapsed: Option<u64>,
) -> bool {
    match last_position(entries, key) {
        None => elapsed is None,
        Some(_) => exists|nanos: u128|
            nanos <= u64::MAX && elapsed == #[trigger] reported_elapsed(nanos, threshold),
    }
}

/// A call is timed from its own start: the instant taken for `key` is the one
/// recorded by the most recent pending entry with that key, whatever entries
/// stand before or after it.
pub proof fn lemma_start_is_own_begin(entries: Seq<TimedCall>, key: usize, p: int)
    requires
        0 <= p < entries.len(),
        entries[p].0 == key,
        forall|j: int| p < j < entries.len() ==> entries[j].0 != key,
    ensures
        start_of(entries, key) == Some(entries[p].1),
{
    lemma_last_position(entries, key);
}

/// The call that began last is the one whose start is taken: after recording
/// `(key, start)` on top of any pending calls, the instant taken for `key` is
/// `start`.
pub proof fn lemma_start_after_begin(entries: Seq<TimedCall>, key: usize, start: Instant)
    ensures
        start_of(entries.push((key, start)), key) == Some(start),
{
    lemma_start_is_own_begin(entries.push((key, start)), key, entries.len() as int);
}

/// Removes the most recent pending call with `key` (the last entry takes its
/// place) and gives the instant it began. With no pending call for `key`
/// nothing changes.
pub fn take_start(times: &mut FunctionTimes, key: usize) -> (start: Option<Instant>)
    ensures
        final(times)@ == taken(old(times)@, key),
        start == start_of(old(times)@, key),
        forall|p: int|
            0 <= p < old(times)@.len() && #[trigger] old(times)@[p].0 == key && (forall|j: int|
                p < j < old(times)@.len() ==> old(times)@[j].0 != key) ==> start == Some(
                old(times)@[p].1,
            ),
        (forall|j: int| 0 <= j < old(times)@.len() ==> old(times)@[j].0 != key) ==> start is None,
{
    proof {
        lemma_last_position(times@, key);
        assert forall|p: int|
            0 <= p < times@.len() && #[trigger] times@[p].0 == key && (forall|j: int|
                p < j < times@.len() ==> times@[j].0 != key) implies start_of(times@, key) == Some(
            times@[p].1,
        ) by {
            lemma_start_is_own_begin(times@, key, p);
        }
    }
    match times.rposition(key) {
        None => None,
        Some(pos) => {
            let (_, start) = times.entries.swap_remove(pos);
            Some(start)
        },
    }
}

/// Ends the most recent pending call with `key`: removes it (the last entry
/// takes its place), measures the time since it began and reports it when it
/// exceeds `threshold`. With no pending call for `key` nothing changes.
pub fn take_elapsed_if_over_threshold(times: &mut FunctionTimes, key: usize, threshold: u64) -> (r:
    Option<u64>)
    ensures
        final(times)@ == taken(old(times)@, key),
        taken_elapsed(old(times)@, key, threshold, r),
        r matches Some(e) ==> e > threshold,
{
    match take_start(times, key) {
        None => None,
        Some(start) => {
            let nanos = elapsed_nanos(&start);
            elapsed_if_over_threshold(nanos, threshold)
        },
    }
}

/// Records that the call with execute data at `key` begins now.
pub fn observer_begin(times: &mut FunctionTimes, key: usize)
    ensures
        final(times)@.len() == old(times)@.len() + 1,
        final(times)@.drop_last() == old(times)@,
        final(times)@.last().0 == key,
{
    let now = clock_now();
    set_function_time(times, key, now);
    proof {
        assert(times@.drop_last() =~= old(times)@);
    }
}

/// The observation made from a taken elapsed time and the frame reader:
/// nothing without an elapsed time; otherwise the frame is read, and the
/// observation is that elapsed time with the frame's name and memory usage,
/// or nothing where the frame cannot be read.
pub open spec fn observation_from<F: FnOnce() -> Option<FunctionFrame>>(
    elapsed: Option<u64>,
    read_frame: F,
    r: Option<FunctionObservation>,
) -> bool {
    &&& elapsed is None ==> r is None
    &&& r matches Some(obs) ==> elapsed == Some(obs.elapsed) && frame_read(
        read_frame,
        obs.function_name@,
        obs.memory,
    )
    &&& (elapsed is Some && r is None) ==> call_ensures(read_frame, (), None)
}

/// The observation of a call that ended with `elapsed`: the frame is read
/// only when there is an elapsed time to report.
pub fn observation_of<F: FnOnce() -> Option<FunctionFrame>>(elapsed: Option<u64>, read_frame: F) -> (r:
    Option<FunctionObservation>)
    requires
        elapsed is Some ==> call_requires(read_frame, ()),
    ensures
        observation_from(elapsed, read_frame, r),
{
    let elapsed = match elapsed {
        Some(e) => e,
        None => return None,
    };
    let frame = match read_frame() {
        Some(f) => f,
        None => return None,
    };
    Some(FunctionObservation { elapsed, function_name: frame.function_name, memory: frame.memory })
}

/// What ending the call with `key` observes: the elapsed time that the take
/// reports, turned into an observation with the frame reader.
pub open spec fn observed_end<F: FnOnce() -> Option<FunctionFrame>>(
    entries: Seq<TimedCall>,
    key: usize,
    threshold: u64,
    read_frame: F,
    obs: Option<FunctionObservation>,
) -> bool {
    exists|elapsed: Option<u64>|
        #[trigger] taken_elapsed(entries, key, threshold, elapsed) && observation_from(
            elapsed,
            read_frame,
            obs,
        )
}

/// Ends the call with execute data at `key` and, when it ran longer than
/// `threshold`, reads its frame and reports the observation. The frame is
/// read only for a call that is reported; a frame that cannot be read
/// reports nothing.
pub fn observe_function_end<F: FnOnce() -> Option<FunctionFrame>>(
    times: &mut FunctionTimes,
    key: usize,
    threshold: u64,
    read_frame: F,
) -> (r: Option<FunctionObservation>)
    requires
        call_requires(read_frame, ()),
    ensures
        final(times)@ == taken(old(times)@, key),
        observed_end(old(times)@, key, threshold, read_frame, r),
        last_position(old(times)@, key) is None ==> r is None,
        r matches Some(obs) ==> obs.elapsed > threshold,
{
    let elapsed = take_elapsed_if_over_threshold(times, key, threshold);
    let r = observation_of(elapsed, read_frame);
    assert(taken_elapsed(old(times)@, key, threshold, elapsed) && observation_from(
        elapsed,
        read_frame,
        r,
    ));
    r
}

} // verus!

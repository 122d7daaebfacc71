use compass::function_observer::{
    elapsed_if_over_threshold, is_over_function_threshold, observation_of, observe_function_end,
    observer_begin, take_start,
    set_function_time, take_elapsed_if_over_threshold, FunctionFrame, FunctionObservation,
    FunctionTimes,
};
use quanta::Instant;

fn frame(name: &str, memory: u64) -> Option<FunctionFrame> {
    Some(FunctionFrame { function_name: name.as_bytes().to_vec(), memory })
}

fn wait_past(start: Instant, nanos: u64) {
    while (Instant::now() - start).as_nanos() <= nanos as u128 {}
}

#[test]
fn threshold_is_exceeded_only_strictly() {
    assert!(is_over_function_threshold(1_000_001, 1_000_000));
    assert!(!is_over_function_threshold(1_000_000, 1_000_000));
    assert!(!is_over_function_threshold(0, 0));
}

#[test]
fn elapsed_reported_above_threshold() {
    assert_eq!(elapsed_if_over_threshold(2_000_000, 1_000_000), Some(2_000_000));
    assert_eq!(elapsed_if_over_threshold(1_000_000, 1_000_000), None);
    assert_eq!(elapsed_if_over_threshold(7, 0), Some(7));
    assert_eq!(elapsed_if_over_threshold(0, 0), None);
}

#[test]
fn elapsed_cast_truncates_like_as_u64() {
    assert_eq!(elapsed_if_over_threshold((1u128 << 64) + 7, 0), Some(7));
    assert_eq!(elapsed_if_over_threshold(1u128 << 64, 0), None);
}

#[test]
fn new_stack_is_empty() {
    let times = FunctionTimes::new();
    assert_eq!(times.len(), 0);
    assert_eq!(times.keys(), Vec::<usize>::new());
}

#[test]
fn set_pushes_on_top() {
    let mut times = FunctionTimes::new();
    set_function_time(&mut times, 10, Instant::now());
    set_function_time(&mut times, 20, Instant::now());
    assert_eq!(times.keys(), vec![10, 20]);
}

#[test]
fn take_after_set_restores_the_stack() {
    let mut times = FunctionTimes::new();
    set_function_time(&mut times, 1, Instant::now());
    set_function_time(&mut times, 2, Instant::now());
    set_function_time(&mut times, 3, Instant::now());
    assert_eq!(take_elapsed_if_over_threshold(&mut times, 3, u64::MAX), None);
    assert_eq!(times.keys(), vec![1, 2]);
}

#[test]
fn nested_calls_leave_the_stack_as_it_was() {
    let mut times = FunctionTimes::new();
    set_function_time(&mut times, 5, Instant::now());
    observer_begin(&mut times, 100);
    observer_begin(&mut times, 200);
    take_elapsed_if_over_threshold(&mut times, 200, u64::MAX);
    take_elapsed_if_over_threshold(&mut times, 100, u64::MAX);
    assert_eq!(times.keys(), vec![5]);
}

#[test]
fn take_of_unknown_key_changes_nothing() {
    let mut times = FunctionTimes::new();
    set_function_time(&mut times, 1, Instant::now());
    set_function_time(&mut times, 2, Instant::now());
    assert_eq!(take_elapsed_if_over_threshold(&mut times, 9, 0), None);
    assert_eq!(times.keys(), vec![1, 2]);
}

#[test]
fn take_swap_removes_and_keeps_other_calls() {
    let mut times = FunctionTimes::new();
    for key in [1usize, 2, 3, 4] {
        set_function_time(&mut times, key, Instant::now());
    }
    take_elapsed_if_over_threshold(&mut times, 2, u64::MAX);
    assert_eq!(times.keys(), vec![1, 4, 3]);
}

#[test]
fn take_removes_the_most_recent_call_with_the_key() {
    let mut times = FunctionTimes::new();
    for key in [7usize, 8, 7, 9] {
        set_function_time(&mut times, key, Instant::now());
    }
    take_elapsed_if_over_threshold(&mut times, 7, u64::MAX);
    assert_eq!(times.keys(), vec![7, 8, 9]);
}

#[test]
fn take_reports_a_call_longer_than_the_threshold() {
    let mut times = FunctionTimes::new();
    let start = Instant::now();
    set_function_time(&mut times, 42, start);
    wait_past(start, 2_000);
    let elapsed = take_elapsed_if_over_threshold(&mut times, 42, 1_000);
    assert!(matches!(elapsed, Some(e) if e > 2_000));
    assert_eq!(times.len(), 0);
}

#[test]
fn observe_reads_the_frame_of_a_reported_call() {
    let mut times = FunctionTimes::new();
    let start = Instant::now();
    set_function_time(&mut times, 3, start);
    wait_past(start, 1_000);
    let obs = observe_function_end(&mut times, 3, 0, || frame("App\\Kernel::handle", 4096));
    let obs: FunctionObservation = obs.expect("reported");
    assert!(obs.elapsed > 1_000);
    assert_eq!(obs.function_name, b"App\\Kernel::handle".to_vec());
    assert_eq!(obs.memory, 4096);
}

#[test]
fn observe_skips_the_frame_of_a_short_call() {
    let mut times = FunctionTimes::new();
    observer_begin(&mut times, 3);
    let obs = observe_function_end(&mut times, 3, u64::MAX, || -> Option<FunctionFrame> {
        panic!("frame read for a call that is not reported")
    });
    assert_eq!(obs, None);
    assert_eq!(times.len(), 0);
}

#[test]
fn observe_without_readable_frame_reports_nothing() {
    let mut times = FunctionTimes::new();
    observer_begin(&mut times, 3);
    assert_eq!(observe_function_end(&mut times, 3, 0, || None), None);
    assert_eq!(times.len(), 0);
}

#[test]
fn observe_of_unknown_call_reports_nothing() {
    let mut times = FunctionTimes::new();
    observer_begin(&mut times, 1);
    assert_eq!(observe_function_end(&mut times, 2, 0, || frame("f", 1)), None);
    assert_eq!(times.keys(), vec![1]);
}

#[test]
fn take_start_gives_the_instant_of_the_matching_begin() {
    let mut times = FunctionTimes::new();
    let first = Instant::now();
    set_function_time(&mut times, 1, first);
    let second = Instant::now();
    set_function_time(&mut times, 2, second);
    assert_eq!(take_start(&mut times, 1), Some(first));
    assert_eq!(times.keys(), vec![2]);
    assert_eq!(take_start(&mut times, 1), None);
    assert_eq!(take_start(&mut times, 2), Some(second));
    assert_eq!(times.len(), 0);
}

#[test]
fn observation_of_an_elapsed_time() {
    let obs = observation_of(Some(1_500), || frame("Foo::bar", 64));
    assert_eq!(
        obs,
        Some(FunctionObservation { elapsed: 1_500, function_name: b"Foo::bar".to_vec(), memory: 64 })
    );
    assert_eq!(observation_of(Some(1_500), || None), None);
    let unread = || -> Option<FunctionFrame> { panic!("frame read without an elapsed time") };
    assert_eq!(observation_of(None, unread), None);
}

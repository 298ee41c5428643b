use gamepad_remap::samples::{SampleQueue, MAX_DELTA, MAX_SAMPLES};

#[test]
fn evict_removes_exactly_the_stale_samples() {
    let mut q = SampleQueue::new();
    q.push(1, 0, 1_000);
    q.push(2, 0, 2_000);
    q.push(4, 0, 30_000);
    // At t = 30_000 with a 20 ms window, the first two samples are older
    // than the window, the last is not.
    q.evict(30_000, 20_000);
    assert_eq!(q.len(), 1);
    assert_eq!(q.delta_sums(), (4, 0));
}

#[test]
fn evict_keeps_sample_exactly_at_window_age() {
    // Age equal to the window is not "older than" it: strict inequality.
    let mut q = SampleQueue::new();
    q.push(7, -3, 0);
    q.evict(20_000, 20_000);
    assert_eq!(q.len(), 1);
    assert_eq!(q.delta_sums(), (7, -3));
    // One microsecond later it goes.
    q.evict(20_001, 20_000);
    assert_eq!(q.len(), 0);
}

#[test]
fn empty_queue_yields_zero_velocity() {
    let mut q = SampleQueue::new();
    q.evict(1_000, 20_000);
    assert_eq!(q.delta_sums(), (0, 0));
}

#[test]
fn sums_are_unweighted_over_all_live_samples() {
    let mut q = SampleQueue::new();
    q.push(10, -5, 100);
    q.push(20, 15, 200);
    q.push(-3, 1, 300);
    assert_eq!(q.delta_sums(), (27, 11));
}

#[test]
fn intake_saturates_oversized_deltas() {
    let mut q = SampleQueue::new();
    q.push(i32::MAX, i32::MIN, 50);
    assert_eq!(q.delta_sums(), (MAX_DELTA as i64, -(MAX_DELTA as i64)));
}

#[test]
fn queue_drops_oldest_at_capacity() {
    let mut q = SampleQueue::new();
    q.push(1_000_000, 0, 0); // saturates to MAX_DELTA, then gets dropped
    for i in 0..MAX_SAMPLES {
        q.push(1, 0, (i + 1) as u64);
    }
    assert_eq!(q.len(), MAX_SAMPLES);
    assert_eq!(q.delta_sums(), (MAX_SAMPLES as i64, 0));
}

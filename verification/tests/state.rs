use fast_threadpool::state::State;
use fast_threadpool::ThreadPoolConfig;

fn limits(max_available: u16, max_workers: u16, min_available: u16, min_workers: u16) -> State {
    State::new(
        ThreadPoolConfig::for_cpus(1)
            .max_workers(max_workers)
            .max_available_workers(max_available)
            .min_available_workers(min_available)
            .min_workers(min_workers),
    )
}

#[test]
fn test_state() {
    let state = State::new(
        ThreadPoolConfig::default()
            .min_workers(8)
            .max_available_workers(8),
    );

    for _ in 0..8 {
        assert!(state.allow_new_worker());
    }

    for _ in 0..8 {
        assert!(state.decrease_available());
    }
}

#[test]
fn admission_stops_at_max_workers() {
    let state = limits(1, 3, 1, 1);
    assert!(state.allow_new_worker());
    assert!(state.allow_new_worker());
    assert!(state.allow_new_worker());
    assert!(!state.allow_new_worker());
    assert!(!state.need_spawn());
}

#[test]
fn admission_word_arithmetic() {
    let state = limits(1, 3, 1, 1);
    assert_eq!(state.admission(0), Some(0x1_0001));
    assert_eq!(state.admission(0x2_0005), Some(0x3_0006));
    assert_eq!(state.admission(0x3_0000), None);
    assert_eq!(state.admission(0x1_FFFF), Some(0x3_0000));
}

#[test]
fn admission_wraps_on_the_last_word() {
    let state = limits(1, 0xFFFF, 1, 1);
    assert_eq!(state.admission(0xFFFE_FFFF), Some(0));
}

#[test]
fn retirement_keeps_minimums() {
    let state = limits(4, 10, 2, 2);
    // 3 workers, 3 available: more than both minimums.
    assert_eq!(state.retirement(0x3_0003), Some(0x2_0003));
    // Only 2 available: not more than min_available_workers.
    assert_eq!(state.retirement(0x3_0002), None);
    // Only 2 workers: not more than min_workers.
    assert_eq!(state.retirement(0x2_0005), None);
}

#[test]
fn decrease_decision() {
    let state = limits(2, 10, 1, 1);
    assert!(state.available_decreased(0x5_0003));
    assert!(!state.available_decreased(0x5_0004));
    assert!(state.available_decreased(0x5_0001));
    // No available worker: the count that stays wraps and asks for nothing.
    assert!(!state.available_decreased(0x5_0000));
}

#[test]
fn increment_decision() {
    let state = limits(2, 5, 1, 1);
    assert!(state.available_incremented(0x4_0001));
    assert!(!state.available_incremented(0x4_0002));
    assert!(!state.available_incremented(0x5_0000));
}

#[test]
fn spawn_needed_decision() {
    let state = limits(2, 5, 1, 1);
    assert!(state.spawn_needed(0x4_0002));
    assert!(!state.spawn_needed(0x4_0003));
    assert!(!state.spawn_needed(0x5_0000));
    assert!(state.spawn_needed(0));
}

#[test]
fn counter_sequence() {
    let state = limits(1, 4, 1, 1);
    // Two workers join: 2 workers, 2 available.
    assert!(state.allow_new_worker());
    assert!(state.allow_new_worker());
    // Available 2 > max_available 1: no spawn needed.
    assert!(!state.need_spawn());
    // One takes a job: 1 stays available, which asks for one more worker.
    assert!(state.decrease_available());
    assert!(state.need_spawn());
    // The job ends: available back to 2, above max_available, so no spawn.
    assert!(!state.increment_available());
    // Idle and above both minimums: one worker may leave, and only one.
    assert!(state.allow_to_shutdown());
    assert!(!state.allow_to_shutdown());
}

#[test]
fn admit_then_retire_leaves_one_more_available() {
    let state = limits(7, 8, 1, 1);
    let word: u32 = 0x2_0002;
    let admitted = state.admission(word).unwrap();
    assert_eq!(state.retirement(admitted), Some(word + 1));
}

#[test]
fn job_round_trip_matches_need_spawn() {
    let state = limits(3, 6, 1, 1);
    for previous in [0x2_0001u32, 0x2_0003, 0x2_0004, 0x6_0001, 0x5_0003] {
        assert_eq!(
            state.available_incremented(previous - 1),
            state.spawn_needed(previous)
        );
    }
}

#[test]
fn spawn_request_is_admitted() {
    let state = limits(3, 6, 1, 1);
    for word in [0u32, 0x2_0001, 0x5_0003, 0x6_0000, 0x3_0004] {
        if state.spawn_needed(word) {
            assert!(state.admission(word).is_some());
        }
    }
}

#[test]
fn admissions_from_zero_stop_after_max_workers() {
    let state = limits(1, 3, 1, 1);
    let mut word: u32 = 0;
    let mut results = Vec::new();
    for _ in 0..6 {
        match state.admission(word) {
            Some(next) => {
                word = next;
                results.push(true);
            }
            None => results.push(false),
        }
    }
    assert_eq!(results, vec![true, true, true, false, false, false]);
    assert_eq!(word, 3 * 0x1_0001);
}

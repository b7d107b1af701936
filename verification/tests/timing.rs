use kaleidux::timing::{
    choose_anchor, elapsed_since, is_stale_anchor, transition_duration_us, AnchorPolicy, Progress,
    DEFAULT_REANCHOR_OFFSET_US, DEFAULT_STALE_PERCENT,
};

#[test]
fn elapsed_saturates_at_zero() {
    assert_eq!(elapsed_since(10, 25), 15);
    assert_eq!(elapsed_since(25, 25), 0);
    assert_eq!(elapsed_since(25, 10), 0);
    assert_eq!(elapsed_since(0, u64::MAX), u64::MAX);
}

#[test]
fn duration_is_milliseconds_times_thousand_with_a_floor() {
    assert_eq!(transition_duration_us(0), 1_000);
    assert_eq!(transition_duration_us(1), 1_000);
    assert_eq!(transition_duration_us(1000), 1_000_000);
    assert_eq!(transition_duration_us(u32::MAX), 4_294_967_295_000);
}

#[test]
fn progress_is_clamped_to_one() {
    assert_eq!(Progress::from_elapsed(0, 1000), Progress { elapsed_us: 0, duration_us: 1000 });
    assert_eq!(Progress::from_elapsed(999, 1000), Progress { elapsed_us: 999, duration_us: 1000 });
    assert_eq!(Progress::from_elapsed(1000, 1000), Progress { elapsed_us: 1000, duration_us: 1000 });
    assert_eq!(Progress::from_elapsed(5000, 1000), Progress { elapsed_us: 1000, duration_us: 1000 });
    assert_eq!(Progress::from_elapsed(7, 0), Progress { elapsed_us: 1, duration_us: 1 });
    assert!(Progress::from_elapsed(1000, 1000).finished());
    assert!(!Progress::from_elapsed(999, 1000).finished());
    assert!(Progress::from_elapsed(0, 1000).at_start());
    assert!(!Progress::from_elapsed(1, 1000).at_start());
}

#[test]
fn progress_in_parts_per_million() {
    assert_eq!(Progress::zero().parts_per_million(), 0);
    assert_eq!(Progress::complete().parts_per_million(), 1_000_000);
    assert_eq!(Progress::from_elapsed(1, 3).parts_per_million(), 333_333);
    assert_eq!(Progress::from_elapsed(2, 3).parts_per_million(), 666_666);
    assert_eq!(Progress::from_elapsed(u64::MAX - 1, u64::MAX).parts_per_million(), 999_999);
    assert_eq!(Progress::from_elapsed(u64::MAX, u64::MAX).parts_per_million(), 1_000_000);
}

#[test]
fn standard_policy() {
    let p = AnchorPolicy::standard();
    assert_eq!(p.stale_percent, 80);
    assert_eq!(p.reanchor_offset_us, 100_000);
    assert_eq!(DEFAULT_STALE_PERCENT, 80);
    assert_eq!(DEFAULT_REANCHOR_OFFSET_US, 100_000);
}

#[test]
fn anchor_is_stale_past_eighty_percent() {
    let p = AnchorPolicy::standard();
    assert!(!is_stale_anchor(&p, 0, 1_000_000));
    assert!(!is_stale_anchor(&p, 800_000, 1_000_000));
    assert!(is_stale_anchor(&p, 800_001, 1_000_000));
    assert!(is_stale_anchor(&p, u64::MAX, u64::MAX));
    assert!(!is_stale_anchor(&p, u64::MAX / 2, u64::MAX));
    // 4 of 5 is exactly 80 %, 5 of 6 is more.
    assert!(!is_stale_anchor(&p, 4, 5));
    assert!(is_stale_anchor(&p, 5, 6));
}

#[test]
fn anchor_choice() {
    let p = AnchorPolicy::standard();
    let second = 1_000_000;
    assert_eq!(choose_anchor(&p, None, 500, second), 500);
    assert_eq!(choose_anchor(&p, Some(1_000), 51_000, second), 1_000);
    assert_eq!(choose_anchor(&p, Some(1_000), 901_000, second), 801_000);
    // The clock has not yet run for the offset: the transition starts now.
    assert_eq!(choose_anchor(&p, Some(0), 99_999, 50_000), 99_999);
    assert_eq!(choose_anchor(&p, Some(0), 100_000, 50_000), 0);
    // A batch anchor in the future is not stale and is kept.
    assert_eq!(choose_anchor(&p, Some(2_000), 1_000, second), 2_000);
}

#[test]
fn policy_is_configurable() {
    let eager = AnchorPolicy { stale_percent: 10, reanchor_offset_us: 5 };
    assert_eq!(choose_anchor(&eager, Some(0), 100, 1000), 0);
    assert_eq!(choose_anchor(&eager, Some(0), 101, 1000), 96);
    let never = AnchorPolicy { stale_percent: u64::MAX, reanchor_offset_us: 5 };
    assert_eq!(choose_anchor(&never, Some(0), u64::MAX, 200), 0);
    assert_eq!(choose_anchor(&never, Some(0), u64::MAX, 1), u64::MAX - 5);
}

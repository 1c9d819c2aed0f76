use doom_status::classify::{get_icon, STATE_COUNT};

#[test]
fn scenario_reference_samples() {
    assert_eq!(get_icon(0), 0);
    assert_eq!(get_icon(16), 0);
    assert_eq!(get_icon(17), 1);
    assert_eq!(get_icon(50), 2);
    assert_eq!(get_icon(84), 4);
    assert_eq!(get_icon(99), 5);
    // Out of range: above 100 clamps to the highest state.
    assert_eq!(get_icon(150), 5);
}

#[test]
fn band_boundaries() {
    assert_eq!(get_icon(33), 1);
    assert_eq!(get_icon(34), 2);
    assert_eq!(get_icon(51), 3);
    assert_eq!(get_icon(67), 3);
    assert_eq!(get_icon(68), 4);
    assert_eq!(get_icon(85), 5);
    assert_eq!(get_icon(100), 5);
    assert_eq!(get_icon(255), 5);
}

#[test]
fn state_count_is_six() {
    assert_eq!(STATE_COUNT, 6);
}

#[test]
fn total_in_range_and_monotonic() {
    let mut prev = 0u8;
    for load in 0..=255u8 {
        let state = get_icon(load);
        assert!(state < STATE_COUNT);
        assert!(prev <= state);
        prev = state;
    }
}

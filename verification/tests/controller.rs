use doom_status::classify::STATE_COUNT;
use doom_status::controller::UpdateController;

/// Tick the controller once per sample, with every issued display change
/// accepted, and collect the issued changes.
fn run(controller: &mut UpdateController, samples: &[Option<u8>]) -> Vec<u8> {
    let mut changes = Vec::new();
    for &sample in samples {
        if let Some(state) = controller.update(sample) {
            assert!(state < STATE_COUNT);
            changes.push(state);
            controller.note_displayed(state);
        }
    }
    changes
}

#[test]
fn first_update_always_displays() {
    // The controller starts with the sentinel, so the very first successful
    // sample issues exactly one change, even to the "default" state 0.
    let mut controller = UpdateController::new(b"quit".to_vec());
    assert_eq!(controller.last_state, None);
    let changes = run(&mut controller, &[Some(10)]);
    assert_eq!(changes, vec![0]);
    assert_eq!(controller.last_state, Some(0));
}

#[test]
fn unchanged_sample_is_a_noop() {
    let mut controller = UpdateController::new(b"quit".to_vec());
    let changes = run(&mut controller, &[Some(40), Some(40)]);
    assert_eq!(changes, vec![2]);
}

#[test]
fn one_change_per_band_entered() {
    let mut controller = UpdateController::new(b"quit".to_vec());
    let samples = [
        Some(5),
        Some(10),
        Some(16),
        Some(20),
        Some(25),
        Some(90),
        Some(90),
        Some(3),
    ];
    let changes = run(&mut controller, &samples);
    assert_eq!(changes, vec![0, 1, 5, 0]);
}

#[test]
fn same_band_different_samples_is_a_noop() {
    let mut controller = UpdateController::new(b"quit".to_vec());
    let changes = run(&mut controller, &[Some(0), Some(7), Some(16)]);
    assert_eq!(changes, vec![0]);
}

#[test]
fn failed_sample_skips_the_cycle() {
    let mut controller = UpdateController::new(b"quit".to_vec());
    assert_eq!(controller.update(None), None);
    assert_eq!(controller.last_state, None);
    let changes = run(&mut controller, &[Some(50), None, Some(50), None]);
    assert_eq!(changes, vec![2]);
    assert_eq!(controller.last_state, Some(2));
}

#[test]
fn display_failure_is_retried() {
    let mut controller = UpdateController::new(b"quit".to_vec());
    // The display rejects the first change: the host does not report it, so
    // the recorded state stays the sentinel.
    assert_eq!(controller.update(Some(30)), Some(1));
    assert_eq!(controller.last_state, None);
    // The next tick asks for the same transition again.
    assert_eq!(controller.update(Some(30)), Some(1));
    controller.note_displayed(1);
    assert_eq!(controller.update(Some(30)), None);
}

#[test]
fn quit_signal_matches_only_the_registered_id() {
    let controller = UpdateController::new(b"3".to_vec());
    assert!(controller.handle_quit_signal(&b"3".to_vec()));
    assert!(!controller.handle_quit_signal(&b"2".to_vec()));
    assert!(!controller.handle_quit_signal(&b"30".to_vec()));
    assert!(!controller.handle_quit_signal(&b"".to_vec()));
}

#[test]
fn quit_signal_empty_id() {
    let controller = UpdateController::new(Vec::new());
    assert!(controller.handle_quit_signal(&Vec::new()));
    assert!(!controller.handle_quit_signal(&b"0".to_vec()));
}

use montage::driver::BusMessage;
use montage::driver::Driver;
use montage::driver::CommandError;
use montage::driver::ExecutionState;
use montage::driver::LoopAction;
use montage::driver::PPM;
use montage::driver::clamp_ppm;
use montage::driver::seek_target_ns;

#[test]
fn new_driver_is_idle() {
    let d = Driver::new();
    assert_eq!(d.state, ExecutionState::Idle);
    assert!(!d.loaded);
    assert_eq!(d.duration_ns, 0);
    assert_eq!((d.width, d.height), (1280, 720));
}

#[test]
fn preroll_caches_metadata() {
    let mut d = Driver::new();
    d.preroll(Some(12_000_000_000), Some((1920, 1080)));
    assert_eq!(d.state, ExecutionState::Prerolled);
    assert!(d.loaded);
    assert!(d.duration_ns > 0);
    assert_eq!(d.duration_ns, 12_000_000_000);
    assert_eq!((d.width, d.height), (1920, 1080));
}

#[test]
fn preroll_timeout_leaves_placeholders() {
    let mut d = Driver::new();
    d.preroll(None, None);
    assert_eq!(d.state, ExecutionState::Prerolled);
    assert_eq!(d.duration_ns, 0);
    assert_eq!((d.width, d.height), (1280, 720));
}

#[test]
fn play_and_pause_are_idempotent() {
    let mut d = Driver::new();
    d.preroll(Some(1_000_000_000), None);
    d.play();
    assert_eq!(d.state, ExecutionState::Playing);
    d.play();
    assert_eq!(d.state, ExecutionState::Playing);
    d.pause();
    assert_eq!(d.state, ExecutionState::Paused);
    d.pause();
    assert_eq!(d.state, ExecutionState::Paused);
}

#[test]
fn play_before_preroll_is_a_no_op() {
    let mut d = Driver::new();
    d.play();
    assert_eq!(d.state, ExecutionState::Idle);
}

#[test]
fn stop_twice_is_safe() {
    let mut d = Driver::new();
    d.preroll(Some(1_000_000_000), None);
    d.play();
    let released_first = d.stop();
    assert!(released_first);
    assert_eq!(d.state, ExecutionState::Stopped);
    assert!(!d.loaded);
    let released_second = d.stop();
    assert!(!released_second);
    assert_eq!(d.state, ExecutionState::Stopped);
    assert!(!d.loaded);
}

#[test]
fn seek_clamps_negative_like_zero() {
    let mut d = Driver::new();
    d.preroll(Some(10_000_000_000), None);
    let below = d.seek(-123_456).unwrap();
    let zero = d.seek(0).unwrap();
    assert_eq!(below, zero);
    assert_eq!(zero, 0);
}

#[test]
fn seek_clamps_above_one_like_one() {
    let mut d = Driver::new();
    d.preroll(Some(10_000_000_000), None);
    let above = d.seek(7 * PPM as i64).unwrap();
    let one = d.seek(PPM as i64).unwrap();
    assert_eq!(above, one);
    assert_eq!(one, 10_000_000_000);
}

#[test]
fn seek_scales_by_duration() {
    let mut d = Driver::new();
    d.preroll(Some(8_000_000_000), None);
    assert_eq!(d.seek(500_000).unwrap(), 4_000_000_000);
    assert_eq!(d.seek(250_000).unwrap(), 2_000_000_000);
}

#[test]
fn seek_before_preroll_is_rejected() {
    let mut d = Driver::new();
    assert_eq!(d.seek(500_000), Err(CommandError::NotReady));
}

#[test]
fn seek_after_stop_is_rejected() {
    let mut d = Driver::new();
    d.preroll(Some(1_000_000_000), None);
    d.stop();
    assert_eq!(d.seek(0), Err(CommandError::NotReady));
}

#[test]
fn clamp_ppm_bounds() {
    assert_eq!(clamp_ppm(-1), 0);
    assert_eq!(clamp_ppm(0), 0);
    assert_eq!(clamp_ppm(999), 999);
    assert_eq!(clamp_ppm(1_000_000), 1_000_000);
    assert_eq!(clamp_ppm(1_000_001), 1_000_000);
}

#[test]
fn seek_target_rounds_down() {
    assert_eq!(seek_target_ns(333_333, 3), 0);
    assert_eq!(seek_target_ns(666_667, 3), 2);
    assert_eq!(seek_target_ns(1_000_000, u64::MAX), u64::MAX);
}

#[test]
fn position_is_monotonic_between_seeks() {
    let mut d = Driver::new();
    d.preroll(Some(10_000_000_000), None);
    d.play();
    d.observe_position(5_000_000_000);
    assert_eq!(d.position_ns, 5_000_000_000);
    d.observe_position(4_000_000_000);
    assert_eq!(d.position_ns, 5_000_000_000);
    d.observe_position(6_000_000_000);
    assert_eq!(d.position_ns, 6_000_000_000);
}

#[test]
fn position_may_move_back_after_seek() {
    let mut d = Driver::new();
    d.preroll(Some(10_000_000_000), None);
    d.play();
    d.observe_position(6_000_000_000);
    d.seek(100_000).unwrap();
    d.observe_position(1_000_000_000);
    assert_eq!(d.position_ns, 1_000_000_000);
}

#[test]
fn progress_unknown_before_duration() {
    let mut d = Driver::new();
    d.preroll(None, None);
    assert!(d.progress().is_none());
    assert!(d.progress_ppm().is_none());
}

#[test]
fn progress_fraction_exact() {
    let mut d = Driver::new();
    d.preroll(Some(2_000_000_000), None);
    d.play();
    d.observe_position(500_000_000);
    assert_eq!(d.progress(), Some((500_000_000, 2_000_000_000)));
    assert_eq!(d.progress_ppm(), Some(250_000));
}

#[test]
fn progress_fraction_clamped_at_one() {
    let mut d = Driver::new();
    d.preroll(Some(1_000_000_000), None);
    d.play();
    d.observe_position(3_000_000_000);
    assert_eq!(d.progress_ppm(), Some(1_000_000));
}

#[test]
fn eos_stops_the_run() {
    let mut d = Driver::new();
    d.preroll(Some(1_000_000_000), None);
    d.play();
    let act = d.handle_message(&BusMessage::Eos);
    assert_eq!(act, LoopAction::Finish);
    assert_eq!(d.state, ExecutionState::Stopped);
    assert!(!d.loaded);
}

#[test]
fn error_fails_the_run_with_reason() {
    let mut d = Driver::new();
    d.preroll(Some(1_000_000_000), None);
    d.play();
    let act = d.handle_message(&BusMessage::Error {
        message: "decoder died".to_string(),
        detail: Some("bad frame".to_string()),
    });
    assert_eq!(act, LoopAction::Fail);
    assert!(!d.loaded);
    match &d.state {
        ExecutionState::Failed(reason) => assert_eq!(reason, "decoder died (bad frame)"),
        other => panic!("expected Failed, got {:?}", other),
    }
}

#[test]
fn error_without_detail_keeps_empty_parentheses() {
    let mut d = Driver::new();
    d.preroll(Some(1_000_000_000), None);
    let _ = d.handle_message(&BusMessage::Error {
        message: "boom".to_string(),
        detail: None,
    });
    match &d.state {
        ExecutionState::Failed(reason) => assert_eq!(reason, "boom ()"),
        other => panic!("expected Failed, got {:?}", other),
    }
}

#[test]
fn warnings_and_state_changes_continue() {
    let mut d = Driver::new();
    d.preroll(Some(1_000_000_000), None);
    d.play();
    let w = d.handle_message(&BusMessage::Warning { message: "late".to_string() });
    assert_eq!(w, LoopAction::Continue);
    assert_eq!(d.state, ExecutionState::Playing);
    let s = d.handle_message(&BusMessage::StateChanged);
    assert_eq!(s, LoopAction::Continue);
    assert_eq!(d.state, ExecutionState::Playing);
    let o = d.handle_message(&BusMessage::Other);
    assert_eq!(o, LoopAction::Continue);
    assert_eq!(d.state, ExecutionState::Playing);
}

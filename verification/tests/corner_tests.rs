use waycorner::action::command_parts;
use waycorner::config::CornerConfig;
use waycorner::corner::CommandKind;
use waycorner::corner::Corner;
use waycorner::corner::CornerEvent;
use waycorner::corner::CornerMotionEvent;
use waycorner::corner::DebounceState;
use waycorner::corner::FlickInfo;
use waycorner::corner::DEBOUNCE_WINDOW_MS;

fn zone_config(timeout_ms: u16, flick_activation_speed: u32) -> CornerConfig {
    CornerConfig {
        output: None,
        enter_command: vec!["notify".to_string(), "enter".to_string()],
        exit_command: vec!["notify".to_string(), "exit".to_string()],
        flick_command: vec!["notify".to_string(), "flick".to_string()],
        locations: Vec::new(),
        size: 10,
        margin: 20,
        timeout_ms,
        flick_activation_speed,
        color: 0xFF_FF_00_00,
    }
}

fn motion(time_ms: u64, x: i32, y: i32) -> CornerEvent {
    CornerEvent::Motion(CornerMotionEvent { time_ms, surface_x: x, surface_y: y })
}

#[test]
fn mode_selection_follows_timeout() {
    assert!(Corner::new(zone_config(250, 0)).uses_debounce());
    assert!(!Corner::new(zone_config(0, 0)).uses_debounce());
}

#[test]
fn command_for_names_the_configured_vector() {
    let corner = Corner::new(zone_config(0, 500));
    assert_eq!(corner.command_for(CommandKind::Enter)[1], "enter");
    assert_eq!(corner.command_for(CommandKind::Exit)[1], "exit");
    assert_eq!(corner.command_for(CommandKind::Flick)[1], "flick");
}

#[test]
fn command_parts_splits_program_and_arguments() {
    let cmd = vec!["notify-send".to_string(), "hot".to_string(), "corner".to_string()];
    let (binary, args) = command_parts(&cmd).expect("non-empty command");
    assert_eq!(binary, "notify-send");
    assert_eq!(args, vec!["hot".to_string(), "corner".to_string()]);
}

#[test]
fn command_parts_of_empty_command_is_a_no_op() {
    assert!(command_parts(&Vec::new()).is_none());
}

#[test]
fn flick_scenario_fires_exactly_once() {
    // Threshold 0.5 px/ms; 80 px in 100 ms is 0.8 px/ms.
    let mut corner = Corner::new(zone_config(0, 500));
    assert_eq!(corner.handle_event(CornerEvent::Enter), Some(CommandKind::Enter));
    assert_eq!(corner.handle_event(motion(0, 0, 0)), None);
    assert_eq!(corner.handle_event(motion(100, 0, 80)), Some(CommandKind::Flick));
    // 0.8 px/ms again, but the session already fired.
    assert_eq!(corner.handle_event(motion(150, 0, 120)), None);
}

#[test]
fn slow_motion_does_not_fire() {
    // 40 px in 100 ms is 0.4 px/ms, below the 0.5 threshold.
    let mut corner = Corner::new(zone_config(0, 500));
    assert_eq!(corner.handle_event(motion(0, 0, 0)), None);
    assert_eq!(corner.handle_event(motion(100, 0, 40)), None);
}

#[test]
fn speed_exactly_at_threshold_fires() {
    // 50 px in 100 ms is exactly 0.5 px/ms.
    let mut corner = Corner::new(zone_config(0, 500));
    assert_eq!(corner.handle_event(motion(0, 0, 0)), None);
    assert_eq!(corner.handle_event(motion(100, 0, 50)), Some(CommandKind::Flick));
}

#[test]
fn diagonal_distance_counts() {
    // 30-40-50 triangle: 50 px in 100 ms at threshold 0.5 px/ms.
    let mut corner = Corner::new(zone_config(0, 500));
    assert_eq!(corner.handle_event(motion(0, 10, 10)), None);
    assert_eq!(corner.handle_event(motion(100, 40, 50)), Some(CommandKind::Flick));
}

#[test]
fn leave_clears_gesture_state() {
    let mut corner = Corner::new(zone_config(0, 500));
    assert_eq!(corner.handle_event(motion(0, 0, 0)), None);
    assert_eq!(corner.handle_event(CornerEvent::Leave), Some(CommandKind::Exit));
    assert_eq!(corner.flick_info, FlickInfo::default());
    // A fresh session sees no previous sample: a single motion that would
    // have qualified against the pre-Leave sample fires nothing.
    assert_eq!(corner.handle_event(CornerEvent::Enter), Some(CommandKind::Enter));
    assert_eq!(corner.handle_event(motion(100, 0, 80)), None);
    // A new qualifying pair fires again.
    assert_eq!(corner.handle_event(motion(200, 0, 160)), Some(CommandKind::Flick));
}

#[test]
fn simultaneous_samples_count_as_arbitrarily_fast() {
    let mut corner = Corner::new(zone_config(0, 1_000_000));
    assert_eq!(corner.handle_event(motion(50, 0, 0)), None);
    assert_eq!(corner.handle_event(motion(50, 1, 0)), Some(CommandKind::Flick));
}

#[test]
fn debounce_window_is_250ms() {
    assert_eq!(DEBOUNCE_WINDOW_MS, 250);
}

#[test]
fn debounced_enter_then_quiet_fires_enter_once() {
    let mut state = DebounceState::new();
    state.on_sample(CornerEvent::Enter, 0);
    assert_eq!(state.on_timeout(), (true, Some(CommandKind::Enter)));
    state.on_command_done(300);
    // Nothing new pending: the next quiet timeout is a no-op.
    assert_eq!(state.on_timeout(), (false, None));
}

#[test]
fn debounced_enter_overwritten_by_leave() {
    let mut state = DebounceState::new();
    state.on_sample(CornerEvent::Enter, 0);
    state.on_sample(CornerEvent::Leave, 50);
    assert_eq!(state.on_timeout(), (true, Some(CommandKind::Exit)));
}

#[test]
fn only_the_last_sample_before_a_timeout_fires() {
    let mut state = DebounceState::new();
    state.on_sample(CornerEvent::Leave, 0);
    state.on_sample(CornerEvent::Enter, 10);
    state.on_sample(CornerEvent::Leave, 20);
    state.on_sample(CornerEvent::Enter, 30);
    assert_eq!(state.on_timeout(), (true, Some(CommandKind::Enter)));
    // Everything before the timeout was coalesced into that one firing.
    state.on_command_done(40);
    assert_eq!(state.on_timeout(), (false, None));
}

#[test]
fn sample_inside_cooldown_is_discarded() {
    let mut state = DebounceState::new();
    state.on_command_done(1000);
    state.on_sample(CornerEvent::Enter, 1249);
    assert_eq!(state.on_timeout(), (false, None));
}

#[test]
fn sample_at_cooldown_boundary_is_accepted() {
    let mut state = DebounceState::new();
    state.on_command_done(1000);
    state.on_sample(CornerEvent::Enter, 1250);
    assert_eq!(state.on_timeout(), (true, Some(CommandKind::Enter)));
}

#[test]
fn pending_motion_is_not_actionable_in_debounce_mode() {
    let mut state = DebounceState::new();
    state.on_sample(motion(0, 5, 5), 0);
    // A firing cycle ran (cooldown applies) but no command is named.
    assert_eq!(state.on_timeout(), (true, None));
}

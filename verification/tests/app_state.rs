use keepawake::app_state::{timed_tooltip, AppState, AwakeMode, PowerRequest, TrayShown};
use keepawake::awake::AwakeError;
use keepawake::tray::TrayCommand;
use keepawake::icons::IconFrame;
use keepawake::timer::TimerState;
use keepawake::Duration;

#[test]
fn new_state_is_inactive() {
    let s = AppState::new();
    assert!(!s.is_active());
    assert!(!s.keep_display_awake);
    assert_eq!(s.current_icon_frame, IconFrame::Empty);
    assert_eq!(s.tooltip(), "KeepAwake: inaktív");
    assert_eq!(s.status_text(), "KeepAwake: inaktív");
    assert_eq!(s.desired_frame(), IconFrame::Empty);
    assert!(s.timed_window().is_none());
    let d = AppState::default();
    assert!(matches!(d.awake_mode, AwakeMode::Inactive));
}

#[test]
fn fixed_tooltips_and_frames() {
    let mut s = AppState::new();
    s.awake_mode = AwakeMode::Indefinite;
    assert!(s.is_active());
    assert_eq!(s.tooltip(), "KeepAwake: aktív");
    assert_eq!(s.desired_frame(), IconFrame::Full);
    s.awake_mode = AwakeMode::Expired;
    assert!(!s.is_active());
    assert_eq!(s.tooltip(), "KeepAwake: lejárt");
    assert_eq!(s.desired_frame(), IconFrame::Empty);
}

#[test]
fn timed_tooltip_text() {
    assert_eq!(timed_tooltip(Duration::from_secs(24 * 60 + 13)), "KeepAwake: 24:13 van hátra");
    assert_eq!(timed_tooltip(Duration::from_secs(65)), "KeepAwake: 01:05 van hátra");
    assert_eq!(timed_tooltip(Duration::zero()), "KeepAwake: 00:00 van hátra");
    assert_eq!(timed_tooltip(Duration::from_millis(59_999)), "KeepAwake: 00:59 van hátra");
    assert_eq!(timed_tooltip(Duration::from_secs(2 * 60 * 60)), "KeepAwake: 120:00 van hátra");
}

#[test]
fn timed_session_state() {
    let mut s = AppState::new();
    s.awake_mode = AwakeMode::Timed(TimerState::new(Duration::from_secs(30 * 60)));
    assert!(s.is_active());
    // just started: the full cup, and close to 30 minutes left
    assert_eq!(s.desired_frame(), IconFrame::Full);
    let tip = s.tooltip();
    assert!(tip == "KeepAwake: 30:00 van hátra" || tip == "KeepAwake: 29:59 van hátra", "{}", tip);
    let (left, total) = s.timed_window().unwrap();
    assert_eq!(total, Duration::from_secs(30 * 60));
    assert!(total.at_least(&left));
}

#[test]
fn tick_reports_only_changes() {
    let mut s = AppState::new();
    let mut shown = TrayShown::new();
    s.awake_mode = AwakeMode::Indefinite;
    let u = s.tick(&mut shown);
    assert!(!u.expired);
    assert_eq!(u.frame, Some(IconFrame::Full));
    assert_eq!(u.tooltip.as_deref(), Some("KeepAwake: aktív"));
    assert_eq!(u.stop_enabled, Some(true));
    assert_eq!(u.indefinite_enabled, Some(false));
    assert_eq!(s.current_icon_frame, IconFrame::Full);
    let u = s.tick(&mut shown);
    assert!(!u.expired);
    assert_eq!(u.frame, None);
    assert_eq!(u.tooltip, None);
    assert_eq!(u.stop_enabled, None);
    assert_eq!(u.indefinite_enabled, None);
    s.awake_mode = AwakeMode::Inactive;
    let u = s.tick(&mut shown);
    assert_eq!(u.frame, Some(IconFrame::Empty));
    assert_eq!(u.tooltip.as_deref(), Some("KeepAwake: inaktív"));
    assert_eq!(u.stop_enabled, Some(false));
    assert_eq!(u.indefinite_enabled, Some(true));
}

#[test]
fn tick_expires_finished_timer() {
    let mut s = AppState::new();
    let mut shown = TrayShown::new();
    s.awake_mode = AwakeMode::Timed(TimerState::new(Duration::zero()));
    s.current_icon_frame = IconFrame::Full;
    let u = s.tick(&mut shown);
    assert!(u.expired);
    assert!(matches!(s.awake_mode, AwakeMode::Expired));
    assert_eq!(u.frame, Some(IconFrame::Empty));
    assert_eq!(u.tooltip.as_deref(), Some("KeepAwake: lejárt"));
    assert_eq!(u.stop_enabled, Some(false));
    assert_eq!(u.indefinite_enabled, Some(true));
    let u = s.tick(&mut shown);
    assert!(!u.expired);
    assert_eq!(u.frame, None);
}

#[test]
fn tick_keeps_running_timer() {
    let mut s = AppState::new();
    let mut shown = TrayShown::new();
    s.awake_mode = AwakeMode::Timed(TimerState::new(Duration::from_secs(3600)));
    let u = s.tick(&mut shown);
    assert!(!u.expired);
    assert!(matches!(s.awake_mode, AwakeMode::Timed(_)));
    assert_eq!(u.frame, Some(IconFrame::Full));
    assert_eq!(u.stop_enabled, Some(true));
    assert_eq!(u.indefinite_enabled, Some(true));
}

#[test]
fn tick_at_expires_exactly_when_time_is_up() {
    let mut s = AppState::new();
    let mut shown = TrayShown::new();
    s.awake_mode = AwakeMode::Timed(TimerState::new(Duration::from_secs(100)));
    let u = s.tick_at(&mut shown, Duration::from_secs(50));
    assert!(!u.expired);
    assert_eq!(u.frame, Some(IconFrame::Mid));
    assert_eq!(u.tooltip.as_deref(), Some("KeepAwake: 00:50 van hátra"));
    let u = s.tick_at(&mut shown, Duration::from_millis(99_999));
    assert!(!u.expired);
    assert_eq!(u.frame, Some(IconFrame::Empty));
    assert_eq!(u.tooltip.as_deref(), Some("KeepAwake: 00:00 van hátra"));
    let u = s.tick_at(&mut shown, Duration::from_secs(100));
    assert!(u.expired);
    assert!(matches!(s.awake_mode, AwakeMode::Expired));
    assert_eq!(u.frame, None);
    assert_eq!(u.tooltip.as_deref(), Some("KeepAwake: lejárt"));
    assert_eq!(u.stop_enabled, Some(false));
}

#[test]
fn status_line_equals_tooltip_for_one_reading() {
    let mut s = AppState::new();
    s.awake_mode = AwakeMode::Timed(TimerState::new(Duration::from_secs(600)));
    for secs in [0u64, 1, 59, 60, 599, 600, 601] {
        let e = Duration::from_secs(secs);
        assert_eq!(s.status_text_at(e), s.tooltip_at(e));
    }
    assert_eq!(s.tooltip_at(Duration::from_secs(1)), "KeepAwake: 09:59 van hátra");
    assert_eq!(s.desired_frame_at(Duration::from_secs(1)), IconFrame::Full);
    assert_eq!(s.desired_frame_at(Duration::from_secs(600)), IconFrame::Empty);
}

#[test]
fn commands_ask_the_power_controller() {
    let mut s = AppState::new();
    assert_eq!(s.power_request(TrayCommand::StartIndefinite), PowerRequest::Start { keep_display_awake: false });
    assert_eq!(s.power_request(TrayCommand::Stop), PowerRequest::Stop);
    assert_eq!(s.power_request(TrayCommand::Quit), PowerRequest::StopAndQuit);
    assert_eq!(s.power_request(TrayCommand::ToggleDisplayAwake), PowerRequest::SetKeepDisplayAwake(true));
    s.keep_display_awake = true;
    assert_eq!(
        s.power_request(TrayCommand::StartTimed(Duration::from_secs(900))),
        PowerRequest::Start { keep_display_awake: true }
    );
    assert_eq!(s.power_request(TrayCommand::ToggleDisplayAwake), PowerRequest::SetKeepDisplayAwake(false));
}

#[test]
fn commands_change_the_mode() {
    let mut s = AppState::new();
    s.on_command(TrayCommand::StartIndefinite, Err(AwakeError::CreateSystem(-1)));
    assert!(matches!(s.awake_mode, AwakeMode::Inactive));
    s.on_command(TrayCommand::StartIndefinite, Ok(()));
    assert!(matches!(s.awake_mode, AwakeMode::Indefinite));
    s.on_command(TrayCommand::StartTimed(Duration::from_secs(900)), Ok(()));
    match &s.awake_mode {
        AwakeMode::Timed(t) => assert_eq!(t.total(), Duration::from_secs(900)),
        _ => panic!("not timed"),
    }
    s.on_command(TrayCommand::ToggleDisplayAwake, Ok(()));
    assert!(s.keep_display_awake);
    assert!(matches!(s.awake_mode, AwakeMode::Timed(_)));
    s.on_command(TrayCommand::ToggleDisplayAwake, Err(AwakeError::ReleaseDisplay(3)));
    assert!(!s.keep_display_awake);
    s.on_command(TrayCommand::Quit, Ok(()));
    assert!(matches!(s.awake_mode, AwakeMode::Timed(_)));
    s.on_command(TrayCommand::Stop, Ok(()));
    assert!(matches!(s.awake_mode, AwakeMode::Inactive));
    assert_eq!(s.current_icon_frame, IconFrame::Empty);
}

use keepawake::awake::{AssertionKind, AwakeController, AwakeError, PowerAction, PowerReply, PowerStep};

fn done(step: &PowerStep) -> Option<Result<(), AwakeError>> {
    match step.next {
        PowerAction::Done(r) => Some(r),
        _ => None,
    }
}

#[test]
fn start_without_display() {
    let mut c = AwakeController::new();
    assert!(!c.is_active());
    let s = c.start(false);
    assert!(s.release.is_empty());
    assert!(matches!(s.next, PowerAction::Create(AssertionKind::System)));
    let s = c.on_reply(PowerReply::Created(AssertionKind::System, Ok(7)));
    assert_eq!(done(&s), Some(Ok(())));
    assert!(c.is_active());
    assert!(!c.is_display_awake());
}

#[test]
fn start_with_display() {
    let mut c = AwakeController::new();
    c.start(true);
    let s = c.on_reply(PowerReply::Created(AssertionKind::System, Ok(1)));
    assert!(matches!(s.next, PowerAction::Create(AssertionKind::Display)));
    let s = c.on_reply(PowerReply::Created(AssertionKind::Display, Ok(2)));
    assert_eq!(done(&s), Some(Ok(())));
    assert!(c.is_active());
    assert!(c.is_display_awake());
    assert_eq!(c.stop(), vec![(AssertionKind::System, 1), (AssertionKind::Display, 2)]);
}

#[test]
fn restart_releases_running_session() {
    let mut c = AwakeController::new();
    c.start(true);
    c.on_reply(PowerReply::Created(AssertionKind::System, Ok(1)));
    c.on_reply(PowerReply::Created(AssertionKind::Display, Ok(2)));
    let s = c.start(false);
    assert_eq!(s.release, vec![(AssertionKind::System, 1), (AssertionKind::Display, 2)]);
    assert!(!c.is_active());
    assert!(!c.is_display_awake());
    c.on_reply(PowerReply::Created(AssertionKind::System, Ok(3)));
    assert_eq!(c.stop(), vec![(AssertionKind::System, 3)]);
}

#[test]
fn system_failure_reports_code() {
    let mut c = AwakeController::new();
    c.start(true);
    let s = c.on_reply(PowerReply::Created(AssertionKind::System, Err(-536870199)));
    assert!(s.release.is_empty());
    assert_eq!(done(&s), Some(Err(AwakeError::CreateSystem(-536870199))));
    assert!(!c.is_active());
}

#[test]
fn display_failure_rolls_back() {
    let mut c = AwakeController::new();
    c.start(true);
    c.on_reply(PowerReply::Created(AssertionKind::System, Ok(10)));
    let s = c.on_reply(PowerReply::Created(AssertionKind::Display, Err(-3)));
    assert_eq!(s.release, vec![(AssertionKind::System, 10)]);
    assert_eq!(done(&s), Some(Err(AwakeError::CreateDisplay(-3))));
    assert!(!c.is_active());
    assert!(!c.is_display_awake());
}

#[test]
fn stop_is_idempotent() {
    let mut c = AwakeController::new();
    c.start(false);
    c.on_reply(PowerReply::Created(AssertionKind::System, Ok(5)));
    assert_eq!(c.stop(), vec![(AssertionKind::System, 5)]);
    assert!(c.stop().is_empty());
    assert!(c.stop().is_empty());
    assert!(!c.is_active());
}

#[test]
fn display_option_outside_session() {
    let mut c = AwakeController::new();
    let s = c.set_keep_display_awake(true);
    assert!(s.release.is_empty());
    assert_eq!(done(&s), Some(Ok(())));
    let s = c.set_keep_display_awake(false);
    assert_eq!(done(&s), Some(Ok(())));
    assert!(!c.is_display_awake());
}

#[test]
fn display_option_round_trip() {
    let mut c = AwakeController::new();
    c.start(false);
    c.on_reply(PowerReply::Created(AssertionKind::System, Ok(1)));
    let s = c.set_keep_display_awake(true);
    assert!(matches!(s.next, PowerAction::Create(AssertionKind::Display)));
    let s = c.on_reply(PowerReply::Created(AssertionKind::Display, Ok(2)));
    assert_eq!(done(&s), Some(Ok(())));
    assert!(c.is_display_awake());
    // already on: nothing to do
    let s = c.set_keep_display_awake(true);
    assert_eq!(done(&s), Some(Ok(())));
    let s = c.set_keep_display_awake(false);
    assert!(matches!(s.next, PowerAction::Release(AssertionKind::Display, 2)));
    assert!(!c.is_display_awake());
    let s = c.on_reply(PowerReply::Released(0));
    assert_eq!(done(&s), Some(Ok(())));
    assert!(c.is_active());
    assert_eq!(c.stop(), vec![(AssertionKind::System, 1)]);
}

#[test]
fn display_release_failure_is_reported() {
    let mut c = AwakeController::new();
    c.start(true);
    c.on_reply(PowerReply::Created(AssertionKind::System, Ok(1)));
    c.on_reply(PowerReply::Created(AssertionKind::Display, Ok(2)));
    c.set_keep_display_awake(false);
    let s = c.on_reply(PowerReply::Released(-9));
    assert_eq!(done(&s), Some(Err(AwakeError::ReleaseDisplay(-9))));
    assert!(!c.is_display_awake());
    assert!(c.is_active());
}

#[test]
fn display_add_failure_keeps_session() {
    let mut c = AwakeController::new();
    c.start(false);
    c.on_reply(PowerReply::Created(AssertionKind::System, Ok(1)));
    c.set_keep_display_awake(true);
    let s = c.on_reply(PowerReply::Created(AssertionKind::Display, Err(4)));
    assert_eq!(done(&s), Some(Err(AwakeError::CreateDisplay(4))));
    assert!(c.is_active());
    assert!(!c.is_display_awake());
}

#[test]
fn unexpected_assertion_is_handed_back() {
    let mut c = AwakeController::new();
    let s = c.on_reply(PowerReply::Created(AssertionKind::Display, Ok(99)));
    assert_eq!(s.release, vec![(AssertionKind::Display, 99)]);
    assert_eq!(done(&s), Some(Ok(())));
    assert!(!c.is_active());
}

#[test]
fn error_messages() {
    assert_eq!(
        AwakeError::CreateSystem(-536870199).message(),
        "IOKit rendszer-sleep assertion létrehozása sikertelen (IOReturn=-536870199)"
    );
    assert_eq!(
        AwakeError::CreateDisplay(3).message(),
        "IOKit kijelző-sleep assertion létrehozása sikertelen (IOReturn=3)"
    );
    assert_eq!(
        AwakeError::ReleaseSystem(0).message(),
        "IOKit rendszer-sleep assertion release hiba (IOReturn=0)"
    );
    assert_eq!(
        AwakeError::ReleaseDisplay(i32::MIN).message(),
        "IOKit kijelző-sleep assertion release hiba (IOReturn=-2147483648)"
    );
    assert_eq!(
        AwakeError::ReleaseDisplay(i32::MAX).message(),
        "IOKit kijelző-sleep assertion release hiba (IOReturn=2147483647)"
    );
}

#[test]
fn default_holds_nothing() {
    let mut c = AwakeController::default();
    assert!(!c.is_active());
    assert!(c.stop().is_empty());
}

#[test]
fn stray_reply_fails_pending_request() {
    let mut c = AwakeController::new();
    c.start(false);
    let s = c.on_reply(PowerReply::Created(AssertionKind::Display, Ok(8)));
    assert_eq!(s.release, vec![(AssertionKind::Display, 8)]);
    assert_eq!(done(&s), Some(Err(AwakeError::UnexpectedReply)));
    assert!(!c.is_active());
    // the controller is idle again: a late system reply is handed back too
    let s = c.on_reply(PowerReply::Created(AssertionKind::System, Ok(9)));
    assert_eq!(s.release, vec![(AssertionKind::System, 9)]);
    assert_eq!(done(&s), Some(Ok(())));
    assert!(!c.is_active());
}

#[test]
fn stray_release_keeps_session() {
    let mut c = AwakeController::new();
    c.start(true);
    c.on_reply(PowerReply::Created(AssertionKind::System, Ok(1)));
    let s = c.on_reply(PowerReply::Released(0));
    assert!(s.release.is_empty());
    assert_eq!(done(&s), Some(Err(AwakeError::UnexpectedReply)));
    assert!(c.is_active());
    assert!(!c.is_display_awake());
    assert_eq!(c.stop(), vec![(AssertionKind::System, 1)]);
}

#[test]
fn unexpected_reply_message() {
    assert_eq!(AwakeError::UnexpectedReply.message(), "IOKit váratlan válasz");
}

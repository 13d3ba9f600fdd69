use keepawake::timer::TimerState;
use keepawake::Duration;

#[test]
fn remaining_saturates_at_zero() {
    let t = TimerState::new(Duration::from_millis(10));
    let begin = std::time::Instant::now();
    while !t.is_finished() && begin.elapsed() < std::time::Duration::from_secs(5) {}
    assert!(t.is_finished());
    assert_eq!(t.remaining(), Duration::zero());
}

#[test]
fn zero_length_is_finished_at_once() {
    let t = TimerState::new(Duration::zero());
    assert!(t.is_finished());
    assert_eq!(t.remaining(), Duration::zero());
    assert_eq!(t.total(), Duration::zero());
}

#[test]
fn remaining_and_finished_for_one_reading() {
    let t = TimerState::new(Duration::from_secs(60));
    assert_eq!(t.remaining_at(Duration::from_secs(15)), Duration::from_secs(45));
    assert!(!t.is_finished_at(Duration::from_secs(15)));
    assert_eq!(t.remaining_at(Duration::from_secs(60)), Duration::zero());
    assert!(t.is_finished_at(Duration::from_secs(60)));
    assert_eq!(t.remaining_at(Duration::from_secs(90)), Duration::zero());
    assert!(t.is_finished_at(Duration::from_secs(90)));
}

#[test]
fn fresh_timer_has_almost_everything_left() {
    let t = TimerState::new(Duration::from_secs(3600));
    assert!(!t.is_finished());
    let left = t.remaining();
    assert!(t.total().at_least(&left));
    assert!(left.at_least(&Duration::from_secs(3590)));
    assert!(t.elapsed().as_secs() < 10);
}

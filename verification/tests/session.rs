use std::time::Duration;

use filthy_rich::errors::DisconnectReason;
use filthy_rich::session::{read_failure_reason, ActiveStep, ReadyStep, RunnerOptions, SessionState};
use filthy_rich::types::builder::Activity;

fn frame<'a>(cmd: Option<&'a str>, evt: Option<&'a str>) -> Option<(Option<&'a str>, Option<&'a str>)> {
    Some((cmd, evt))
}

#[test]
fn options_default_and_setters() {
    let o = RunnerOptions::new();
    assert!(!o.show_errors);
    assert_eq!(o.max_retries, 0);
    let o = o.set_max_retries(3).show_errors();
    assert!(o.show_errors);
    assert_eq!(o.max_retries, 3);
}

#[test]
fn gives_up_after_max_retries() {
    let mut s = SessionState::new(RunnerOptions::new().set_max_retries(3));
    assert!(!s.should_give_up());
    assert_eq!(s.record_failed_attempt(), 1);
    assert!(!s.should_give_up());
    assert_eq!(s.record_failed_attempt(), 2);
    assert!(!s.should_give_up());
    assert_eq!(s.record_failed_attempt(), 3);
    assert!(s.should_give_up());
}

#[test]
fn retries_forever_without_limit() {
    let mut s = SessionState::new(RunnerOptions::new());
    for _ in 0..100 {
        s.record_failed_attempt();
        assert!(!s.should_give_up());
    }
}

#[test]
fn established_session_forgets_failures() {
    let mut s = SessionState::new(RunnerOptions::new().set_max_retries(2));
    s.record_failed_attempt();
    s.on_session_established();
    assert_eq!(s.record_failed_attempt(), 1);
    assert!(!s.should_give_up());
}

#[test]
fn ready_is_announced_once() {
    let mut s = SessionState::new(RunnerOptions::new());
    assert_eq!(s.on_ready_frame(3, frame(Some("DISPATCH"), Some("READY"))), ReadyStep::Wait);
    assert_eq!(s.on_ready_frame(1, None), ReadyStep::Wait);
    assert_eq!(s.on_ready_frame(1, frame(None, Some("ERROR"))), ReadyStep::Wait);
    assert!(!s.connected());
    assert_eq!(
        s.on_ready_frame(1, frame(Some("DISPATCH"), Some("READY"))),
        ReadyStep::Ready { signal: true }
    );
    assert!(s.connected());
    assert_eq!(s.on_session_end(None).map(|r| format!("{r:?}")), Some("Unknown".to_string()));
    assert_eq!(
        s.on_ready_frame(1, frame(Some("DISPATCH"), Some("READY"))),
        ReadyStep::Ready { signal: false }
    );
}

#[test]
fn ready_errors_are_reported_when_shown() {
    let mut s = SessionState::new(RunnerOptions::new().show_errors());
    assert_eq!(s.on_ready_frame(1, frame(None, Some("ERROR"))), ReadyStep::ReportError);
    assert_eq!(s.on_ready_frame(1, frame(Some("DISPATCH"), Some("OTHER"))), ReadyStep::Wait);
}

#[test]
fn active_frames() {
    let quiet = SessionState::new(RunnerOptions::new());
    let loud = SessionState::new(RunnerOptions::new().show_errors());
    assert_eq!(quiet.on_active_frame(2, None), ActiveStep::ServerClosed);
    assert_eq!(quiet.on_active_frame(3, None), ActiveStep::Pong);
    assert_eq!(quiet.on_active_frame(4, None), ActiveStep::Ignore);
    assert_eq!(quiet.on_active_frame(1, None), ActiveStep::Ignore);
    assert_eq!(quiet.on_active_frame(1, frame(Some("SET_ACTIVITY"), None)), ActiveStep::ActivitySent);
    assert_eq!(
        quiet.on_active_frame(1, frame(Some("SET_ACTIVITY"), Some("ERROR"))),
        ActiveStep::ActivitySent
    );
    assert_eq!(
        loud.on_active_frame(1, frame(Some("SET_ACTIVITY"), Some("ERROR"))),
        ActiveStep::ReportError
    );
    assert_eq!(loud.on_active_frame(1, frame(Some("OTHER"), None)), ActiveStep::Ignore);
}

#[test]
fn activity_is_kept_for_reconnection_until_cleared() {
    let mut s = SessionState::new(RunnerOptions::new());
    assert!(s.restore_target().is_none());
    let a = Activity::new().name("one").build().unwrap();
    let start = s.on_set_activity(a);
    let b = Activity::new().name("two").duration(Duration::from_secs(5)).build().unwrap();
    assert_eq!(s.on_set_activity(b), start);
    let (_, t) = s.restore_target().unwrap();
    assert_eq!(t, start);
    assert!(s.last_activity().is_some());
    s.on_clear_activity();
    assert!(s.restore_target().is_none());
    assert!(s.last_activity().is_none());
}

#[test]
fn disconnect_is_reported_only_when_connected() {
    let mut s = SessionState::new(RunnerOptions::new());
    assert!(s.on_session_end(Some(DisconnectReason::ServerClosed)).is_none());
    s.on_ready_frame(1, frame(Some("DISPATCH"), Some("READY")));
    let r = s.on_session_end(Some(DisconnectReason::ServerClosed));
    assert!(matches!(r, Some(DisconnectReason::ServerClosed)));
    assert!(s.on_session_end(Some(DisconnectReason::PeerClosed)).is_none());
}

#[test]
fn read_failures() {
    assert!(matches!(read_failure_reason(true, "x".into()), DisconnectReason::PeerClosed));
    assert!(matches!(read_failure_reason(false, "boom".into()), DisconnectReason::ReadFrameError(m) if m == "boom"));
}

#[test]
fn session_start_comes_from_the_clock_reading_once() {
    let mut s = SessionState::new(RunnerOptions::new());
    let a = Activity::new().name("a").build().unwrap();
    assert_eq!(s.on_set_activity_at(a, Some(40)), 40);
    let b = Activity::new().name("b").build().unwrap();
    assert_eq!(s.on_set_activity_at(b, Some(99)), 40);
    s.on_clear_activity();
    let c = Activity::new().name("c").build().unwrap();
    assert_eq!(s.on_set_activity_at(c, Some(77)), 77);
    s.on_clear_activity();
    let d = Activity::new().build().unwrap();
    assert_eq!(s.on_set_activity_at(d, None), 0);
}

#[test]
fn presence_survives_a_lost_connection() {
    let mut s = SessionState::new(RunnerOptions::new());
    s.on_ready_frame(1, frame(Some("DISPATCH"), Some("READY")));
    let a = Activity::new().name("a").build().unwrap();
    s.on_set_activity_at(a, Some(12));
    s.on_session_end(Some(DisconnectReason::ServerClosed));
    s.record_failed_attempt();
    s.on_ready_frame(1, frame(Some("DISPATCH"), Some("READY")));
    s.on_session_established();
    let (_, t) = s.restore_target().unwrap();
    assert_eq!(t, 12);
}

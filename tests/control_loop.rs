use kmitlnetauth::control::{
    Action, Connectivity, Event, Notice, Session, Step, COOLDOWN_SECONDS, PAUSED_POLL_SECONDS,
};
use kmitlnetauth::{Config, Error};

fn config_with(interval: u64, max_attempt: u32) -> Config {
    let mut c = Config::default();
    c.interval = interval;
    c.max_attempt = max_attempt;
    c
}

#[test]
fn new_session_starts_unknown_and_follows_auto_login() {
    let s = Session::new(true);
    assert_eq!(s.connectivity, Connectivity::Unknown);
    assert_eq!(s.consecutive_login_failures, 0);
    assert!(!s.paused);
    let mut c = Config::default();
    c.auto_login = false;
    assert!(Session::for_config(&c).paused);
}

#[test]
fn cycle_start_probes_unless_paused() {
    let c = config_with(30, 20);
    let mut s = Session::new(true);
    assert_eq!(s.step(Event::CycleStarted, &c).action, Action::Probe);
    s.pause();
    let before = s;
    let step = s.step(Event::CycleStarted, &c);
    assert_eq!(step, Step { notice: None, action: Action::Sleep(PAUSED_POLL_SECONDS) });
    assert_eq!(s, before);
}

#[test]
fn restored_fires_once_per_recovery() {
    let c = config_with(30, 20);
    let mut s = Session::new(true);
    let first = s.step(Event::ProbeDone(false), &c);
    assert_eq!(first.notice, None);
    assert_eq!(s.connectivity, Connectivity::Disconnected);
    let back = s.step(Event::ProbeDone(true), &c);
    assert_eq!(back.notice, Some(Notice::ConnectionRestored));
    assert_eq!(back.action, Action::Heartbeat);
    let again = s.step(Event::ProbeDone(true), &c);
    assert_eq!(again.notice, None);
}

#[test]
fn lost_fires_only_when_leaving_connected() {
    let c = config_with(30, 20);
    let mut s = Session::new(true);
    s.step(Event::ProbeDone(true), &c);
    let lost = s.step(Event::ProbeDone(false), &c);
    assert_eq!(lost.notice, Some(Notice::ConnectionLost));
    let still = s.step(Event::ProbeDone(false), &c);
    assert_eq!(still.notice, None);
}

#[test]
fn counter_resets_on_connectivity_and_counts_logins() {
    let c = config_with(30, 20);
    let mut s = Session::new(true);
    for k in 1..=3u32 {
        let step = s.step(Event::ProbeDone(false), &c);
        assert_eq!(step.action, Action::Login);
        assert_eq!(s.consecutive_login_failures, k);
        s.step(Event::LoginDone(Err(Error::Transport)), &c);
        assert_eq!(s.consecutive_login_failures, k);
    }
    s.step(Event::ProbeDone(true), &c);
    assert_eq!(s.consecutive_login_failures, 0);
}

#[test]
fn successful_login_while_disconnected_still_counts() {
    let c = config_with(30, 20);
    let mut s = Session::new(true);
    s.step(Event::ProbeDone(false), &c);
    let step = s.step(Event::LoginDone(Ok(())), &c);
    assert_eq!(step.notice, Some(Notice::LoginSucceeded));
    assert_eq!(step.action, Action::Sleep(30));
    assert_eq!(s.consecutive_login_failures, 1);
}

#[test]
fn twenty_five_failed_probes_with_twenty_attempts() {
    let c = config_with(300, 20);
    let mut s = Session::new(true);
    let mut logins = 0;
    let mut cooldowns = 0;
    let mut actions = Vec::new();
    for _ in 0..25 {
        assert_eq!(s.step(Event::CycleStarted, &c).action, Action::Probe);
        let step = s.step(Event::ProbeDone(false), &c);
        actions.push(step.action);
        let end = match step.action {
            Action::Login => {
                logins += 1;
                s.step(Event::LoginDone(Err(Error::RequestRejected(500))), &c)
            }
            Action::Cooldown(secs) => {
                assert_eq!(secs, 60);
                assert_eq!(s.consecutive_login_failures, 0);
                cooldowns += 1;
                s.step(Event::CooldownDone, &c)
            }
            other => panic!("unexpected action {:?}", other),
        };
        assert_eq!(end.action, Action::Sleep(300));
        assert!(s.consecutive_login_failures <= 20);
    }
    assert!(actions[..20].iter().all(|a| *a == Action::Login));
    assert_eq!(actions[20], Action::Cooldown(COOLDOWN_SECONDS));
    assert_eq!(actions[21], Action::Login);
    assert_eq!(cooldowns, 1);
    assert_eq!(logins, 24);
    assert_eq!(s.consecutive_login_failures, 4);
}

#[test]
fn heartbeat_failure_logs_in_once_and_stays_connected() {
    let c = config_with(300, 20);
    let mut s = Session::new(true);
    let mut notices = Vec::new();
    let mut logins = 0;
    let mut event = Event::CycleStarted;
    loop {
        let step = s.step(event, &c);
        if let Some(n) = step.notice {
            notices.push(n);
        }
        event = match step.action {
            Action::Probe => Event::ProbeDone(true),
            Action::Heartbeat => Event::HeartbeatDone(false),
            Action::Login => {
                logins += 1;
                assert_eq!(s.connectivity, Connectivity::Connected);
                Event::LoginDone(Ok(()))
            }
            Action::Sleep(secs) => {
                assert_eq!(secs, 300);
                break;
            }
            Action::Cooldown(_) => panic!("no backoff while connected"),
        };
    }
    assert_eq!(logins, 1);
    assert_eq!(notices, vec![Notice::LoginSucceeded]);
    assert_eq!(s.connectivity, Connectivity::Connected);
    assert_eq!(s.consecutive_login_failures, 0);
}

#[test]
fn accepted_heartbeat_ends_the_cycle() {
    let c = config_with(45, 20);
    let mut s = Session::new(true);
    s.step(Event::ProbeDone(true), &c);
    let step = s.step(Event::HeartbeatDone(true), &c);
    assert_eq!(step, Step { notice: None, action: Action::Sleep(45) });
}

#[test]
fn login_failure_is_reported_with_its_reason() {
    let c = config_with(30, 20);
    let mut s = Session::new(true);
    let step = s.step(Event::LoginDone(Err(Error::MissingCredentials)), &c);
    assert_eq!(step.notice, Some(Notice::LoginFailed(Error::MissingCredentials)));
}

#[test]
fn pause_twice_stays_paused_and_resume_keeps_counter() {
    let c = config_with(30, 20);
    let mut s = Session::new(true);
    s.step(Event::ProbeDone(false), &c);
    s.step(Event::ProbeDone(false), &c);
    s.pause();
    s.pause();
    assert!(s.paused);
    assert_eq!(s.consecutive_login_failures, 2);
    s.resume();
    assert!(!s.paused);
    assert_eq!(s.consecutive_login_failures, 2);
    assert_eq!(s.step(Event::CycleStarted, &c).action, Action::Probe);
}

#[test]
fn lowered_bound_triggers_backoff_at_once() {
    let mut c = config_with(30, 20);
    let mut s = Session::new(true);
    for _ in 0..5 {
        s.step(Event::ProbeDone(false), &c);
    }
    c.max_attempt = 3;
    let step = s.step(Event::ProbeDone(false), &c);
    assert_eq!(step.action, Action::Cooldown(60));
    assert_eq!(s.consecutive_login_failures, 0);
}

#[test]
fn zero_attempt_bound_always_backs_off() {
    let c = config_with(30, 0);
    let mut s = Session::new(true);
    assert_eq!(s.step(Event::ProbeDone(false), &c).action, Action::Cooldown(60));
    assert_eq!(s.step(Event::ProbeDone(false), &c).action, Action::Cooldown(60));
}

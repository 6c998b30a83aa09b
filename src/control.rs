//! The control loop's decisions: from the session state and what the last
//! request returned, the next request to make and the session's next state.
//!
//! One cycle runs: probe; when connected, a heartbeat and, if it failed, one
//! uncounted login; when disconnected, a counted login or, once the attempts
//! are spent, the extended backoff; then the pause until the next cycle.
//! The caller performs each [`Action`] and hands its outcome back as an
//! [`Event`].
use crate::config::Config;
use crate::error::Error;
use vstd::prelude::*;

verus! {

/// Seconds of the extended backoff after the login attempts are spent.
pub const COOLDOWN_SECONDS: u64 = 60;

/// Seconds between two looks at the pause flag while the loop is paused.
pub const PAUSED_POLL_SECONDS: u64 = 5;

/// What the last connectivity probe said.
#[derive(Debug, Clone, Copy, PartialEq, Eq, Structural)]
pub enum Connectivity {
    /// No probe has answered yet.
    Unknown,
    Connected,
    Disconnected,
}

/// The state the control loop keeps from one cycle to the next.
#[derive(Debug, Clone, Copy, PartialEq, Eq, Structural)]
pub struct Session {
    /// The last probe's result.
    pub connectivity: Connectivity,
    /// Logins attempted in the current disconnected streak.
    pub consecutive_login_failures: u32,
    /// When set, a cycle makes no request and changes nothing.
    pub paused: bool,
}

/// A request or a pause that the caller performs next.
#[derive(Debug, Clone, Copy, PartialEq, Eq, Structural)]
pub enum Action {
    /// Ask the connectivity-check endpoint whether the internet is reachable.
    Probe,
    /// Send the keep-alive request to the portal.
    Heartbeat,
    /// Send the login request to the portal.
    Login,
    /// The extended backoff, in seconds; the cycle goes on after it.
    Cooldown(u64),
    /// The pause that ends the cycle, in seconds.
    Sleep(u64),
}

/// A state change worth telling the user about.
#[derive(Debug, Clone, PartialEq, Eq)]
pub enum Notice {
    ConnectionRestored,
    ConnectionLost,
    LoginSucceeded,
    LoginFailed(Error),
}

/// What the caller hands back to the loop.
#[derive(Debug, PartialEq, Eq)]
pub enum Event {
    /// A new cycle begins (the loop starts, or the last pause ended).
    CycleStarted,
    /// The probe's result: whether the internet is reachable.
    ProbeDone(bool),
    /// Whether the heartbeat was accepted.
    HeartbeatDone(bool),
    /// The login's outcome.
    LoginDone(Result<(), Error>),
    /// The extended backoff is over.
    CooldownDone,
}

/// One decision of the loop: what to tell the user, and what to do next.
#[derive(Debug, Clone, PartialEq, Eq)]
pub struct Step {
    pub notice: Option<Notice>,
    pub action: Action,
}

/// The state a session starts in: nothing probed yet, no attempt counted,
/// paused exactly when automatic login is off.
pub open spec fn initial_session(auto_login: bool) -> Session {
    Session {
        connectivity: Connectivity::Unknown,
        consecutive_login_failures: 0,
        paused: !auto_login,
    }
}

/// The loop's transition: the session after `event` and the step it takes,
/// with the cadence and the attempt bound read from the configuration of
/// this cycle.
pub open spec fn transition(s: Session, event: Event, interval: u64, max_attempts: u32) -> (
    Session,
    Step,
) {
    match event {
        Event::CycleStarted => (
            s,
            Step {
                notice: None,
                action: if s.paused {
                    Action::Sleep(PAUSED_POLL_SECONDS)
                } else {
                    Action::Probe
                },
            },
        ),
        Event::ProbeDone(true) => (
            Session { connectivity: Connectivity::Connected, consecutive_login_failures: 0, ..s },
            Step {
                notice: if s.connectivity == Connectivity::Disconnected {
                    Some(Notice::ConnectionRestored)
                } else {
                    None
                },
                action: Action::Heartbeat,
            },
        ),
        Event::ProbeDone(false) => {
            let notice = if s.connectivity == Connectivity::Connected {
                Some(Notice::ConnectionLost)
            } else {
                None
            };
            if s.consecutive_login_failures < max_attempts {
                (
                    Session {
                        connectivity: Connectivity::Disconnected,
                        consecutive_login_failures: (s.consecutive_login_failures + 1) as u32,
                        ..s
                    },
                    Step { notice, action: Action::Login },
                )
            } else {
                (
                    Session {
                        connectivity: Connectivity::Disconnected,
                        consecutive_login_failures: 0,
                        ..s
                    },
                    Step { notice, action: Action::Cooldown(COOLDOWN_SECONDS) },
                )
            }
        },
        Event::HeartbeatDone(accepted) => (
            s,
            Step {
                notice: None,
                action: if accepted {
                    Action::Sleep(interval)
                } else {
                    Action::Login
                },
            },
        ),
        Event::LoginDone(outcome) => (
            s,
            Step {
                notice: Some(
                    match outcome {
                        Ok(_) => Notice::LoginSucceeded,
                        Err(e) => Notice::LoginFailed(e),
                    },
                ),
                action: Action::Sleep(interval),
            },
        ),
        Event::CooldownDone => (s, Step { notice: None, action: Action::Sleep(interval) }),
    }
}

/// The session after `pause`.
pub open spec fn paused_session(s: Session) -> Session {
    Session { paused: true, ..s }
}

/// The session after `resume`.
pub open spec fn resumed_session(s: Session) -> Session {
    Session { paused: false, ..s }
}

/// A "connection restored" notice comes exactly when a probe succeeds while
/// the previous probe had failed, and the session is then connected.
pub proof fn law_restored_exactly_on_recovery(
    s: Session,
    event: Event,
    interval: u64,
    max_attempts: u32,
)
    ensures
        ({
            let (next, step) = transition(s, event, interval, max_attempts);
            &&& step.notice == Some(Notice::ConnectionRestored) <==> (s.connectivity
                == Connectivity::Disconnected && event == Event::ProbeDone(true))
            &&& step.notice == Some(Notice::ConnectionRestored) ==> next.connectivity
                == Connectivity::Connected
        }),
{
}

/// Only a failed probe makes a session disconnected; so after a "connection
/// restored" notice no second one can come before a probe fails again.
pub proof fn law_disconnected_only_by_failed_probe(
    s: Session,
    event: Event,
    interval: u64,
    max_attempts: u32,
)
    ensures
        transition(s, event, interval, max_attempts).0.connectivity == Connectivity::Disconnected
            ==> s.connectivity == Connectivity::Disconnected || event == Event::ProbeDone(false),
{
}

/// The attempt counter: back to zero on a successful probe; one more for
/// each login made while disconnected; back to zero, with the extended
/// backoff instead of a login, once the bound is reached; untouched by every
/// other event. It never rises above the bound.
pub proof fn law_attempt_counter(s: Session, event: Event, interval: u64, max_attempts: u32)
    ensures
        ({
            let (next, step) = transition(s, event, interval, max_attempts);
            let n = s.consecutive_login_failures;
            &&& event == Event::ProbeDone(true) ==> next.consecutive_login_failures == 0
            &&& event == Event::ProbeDone(false) && n < max_attempts ==> {
                &&& next.consecutive_login_failures == n + 1
                &&& step.action == Action::Login
            }
            &&& event == Event::ProbeDone(false) && n >= max_attempts ==> {
                &&& next.consecutive_login_failures == 0
                &&& step.action == Action::Cooldown(COOLDOWN_SECONDS)
            }
            &&& !(event is ProbeDone) ==> next.consecutive_login_failures == n
            &&& n <= max_attempts ==> next.consecutive_login_failures <= max_attempts
        }),
{
}

/// Pausing twice is pausing once; a paused cycle makes no request and
/// changes nothing.
pub proof fn law_pause_idempotent(s: Session, interval: u64, max_attempts: u32)
    ensures
        paused_session(paused_session(s)) == paused_session(s),
        paused_session(s).paused,
        transition(paused_session(s), Event::CycleStarted, interval, max_attempts) == (
            paused_session(s),
            Step { notice: None, action: Action::Sleep(PAUSED_POLL_SECONDS) },
        ),
{
}

/// Resuming after a pause keeps the connectivity and the attempt count, and
/// the next cycle probes again.
pub proof fn law_resume_after_pause(s: Session, interval: u64, max_attempts: u32)
    ensures
        ({
            let r = resumed_session(paused_session(s));
            &&& !r.paused
            &&& r.consecutive_login_failures == s.consecutive_login_failures
            &&& r.connectivity == s.connectivity
            &&& transition(r, Event::CycleStarted, interval, max_attempts) == (
                r,
                Step { notice: None, action: Action::Probe },
            )
        }),
{
}

/// A heartbeat's outcome never changes the session: a refused heartbeat
/// leads to one login and no notice, an accepted one ends the cycle. The
/// login that follows leaves the session as it is too.
pub proof fn law_heartbeat_keeps_session(
    s: Session,
    accepted: bool,
    outcome: Result<(), Error>,
    interval: u64,
    max_attempts: u32,
)
    ensures
        transition(s, Event::HeartbeatDone(accepted), interval, max_attempts) == (
            s,
            Step {
                notice: None,
                action: if accepted {
                    Action::Sleep(interval)
                } else {
                    Action::Login
                },
            },
        ),
        transition(s, Event::LoginDone(outcome), interval, max_attempts).0 == s,
        transition(s, Event::LoginDone(outcome), interval, max_attempts).1.action == Action::Sleep(
            interval,
        ),
{
}

impl Session {
    /// A session at loop start.
    pub fn new(auto_login: bool) -> (r: Session)
        ensures
            r == initial_session(auto_login),
    {
        Session {
            connectivity: Connectivity::Unknown,
            consecutive_login_failures: 0,
            paused: !auto_login,
        }
    }

    /// A session at loop start for `config`: paused when its automatic
    /// login is off.
    pub fn for_config(config: &Config) -> (r: Session)
        ensures
            r == initial_session(config.auto_login),
    {
        Session::new(config.auto_login)
    }

    /// Stops all requests from the next cycle on.
    pub fn pause(&mut self)
        ensures
            *final(self) == paused_session(*old(self)),
    {
        self.paused = true;
    }

    /// Lets the next cycle make requests again; the attempt count is kept.
    pub fn resume(&mut self)
        ensures
            *final(self) == resumed_session(*old(self)),
    {
        self.paused = false;
    }

    /// Takes the outcome of the last action and decides the next one. The
    /// cadence and the attempt bound are read from `config` at every call,
    /// so that edits take effect at once.
    pub fn step(&mut self, event: Event, config: &Config) -> (r: Step)
        ensures
            (*final(self), r) == transition(*old(self), event, config.interval, config.max_attempt),
    {
        match event {
            Event::CycleStarted => {
                let action = if self.paused {
                    Action::Sleep(PAUSED_POLL_SECONDS)
                } else {
                    Action::Probe
                };
                Step { notice: None, action }
            },
            Event::ProbeDone(connected) => {
                if connected {
                    let notice = if self.connectivity == Connectivity::Disconnected {
                        Some(Notice::ConnectionRestored)
                    } else {
                        None
                    };
                    self.connectivity = Connectivity::Connected;
                    self.consecutive_login_failures = 0;
                    Step { notice, action: Action::Heartbeat }
                } else {
                    let notice = if self.connectivity == Connectivity::Connected {
                        Some(Notice::ConnectionLost)
                    } else {
                        None
                    };
                    self.connectivity = Connectivity::Disconnected;
                    if self.consecutive_login_failures < config.max_attempt {
                        self.consecutive_login_failures = self.consecutive_login_failures + 1;
                        Step { notice, action: Action::Login }
                    } else {
                        self.consecutive_login_failures = 0;
                        Step { notice, action: Action::Cooldown(COOLDOWN_SECONDS) }
                    }
                }
            },
            Event::HeartbeatDone(accepted) => {
                let action = if accepted {
                    Action::Sleep(config.interval)
                } else {
                    Action::Login
                };
                Step { notice: None, action }
            },
            Event::LoginDone(outcome) => {
                let notice = match outcome {
                    Ok(_) => Notice::LoginSucceeded,
                    Err(e) => Notice::LoginFailed(e),
                };
                Step { notice: Some(notice), action: Action::Sleep(config.interval) }
            },
            Event::CooldownDone => Step { notice: None, action: Action::Sleep(config.interval) },
        }
    }
}

} // verus!

//! The dashboard's decisions: which command a typed line names, what it does
//! to the displayed status, and how the login popup reacts to keys.
//!
//! The terminal, its widgets and its input fields live in the program around
//! the library; it hands the typed text and the pressed key over as plain
//! values.
use crate::config::Config;
use crate::control::{Connectivity, Session};
use vstd::prelude::*;

verus! {

/// The connection status the dashboard shows.
#[derive(Debug, Clone, Copy, PartialEq, Eq, Structural)]
pub enum AppStatus {
    Online,
    Offline,
    Connecting,
    Paused,
}

/// A command typed on the dashboard's command line.
#[derive(Debug, Clone, Copy, PartialEq, Eq, Structural)]
pub enum Command {
    /// `quit` or `exit`: leave the program.
    Quit,
    /// `login`: open the popup that asks for new credentials.
    Login,
    /// `connect`: accepted, and has no effect of its own.
    Connect,
    /// `stop` or `pause`: stop automatic login.
    Pause,
    /// `start` or `resume`: resume automatic login.
    Resume,
    /// An empty line or an unknown word: nothing happens.
    Ignored,
}

/// A key pressed while the login popup is open.
#[derive(Debug, Clone, Copy, PartialEq, Eq, Structural)]
pub enum PopupKey {
    /// Escape: close the popup without changes.
    Cancel,
    /// Tab: move the focus between the username and the password field.
    SwitchField,
    /// Enter: submit the credentials and close the popup.
    Submit,
    /// Any other key: edits the focused field.
    Edit,
}

/// The login popup: whether it is shown and which field has the focus.
#[derive(Debug, Clone, Copy, PartialEq, Eq, Structural)]
pub struct Popup {
    pub visible: bool,
    pub focus_password: bool,
}

/// What `str::split_whitespace` gives first for a text: its first word.
pub uninterp spec fn first_word_of(s: Seq<char>) -> Option<Seq<char>>;

/// Relies on `str::split_whitespace` and the iterator's `next`: the first
/// run of non-white-space characters; `None` for an empty text.
#[verifier::external_body]
fn first_word(s: &str) -> (r: Option<&str>)
    ensures
        match r {
            Some(w) => first_word_of(s@) == Some(w@),
            None => first_word_of(s@) is None,
        },
        s@.len() == 0 ==> r is None,
{
    s.split_whitespace().next()
}

/// The command that a line's first word names.
pub open spec fn command_named(word: Option<Seq<char>>) -> Command {
    match word {
        None => Command::Ignored,
        Some(w) => if w == "quit"@ || w == "exit"@ {
            Command::Quit
        } else if w == "login"@ {
            Command::Login
        } else if w == "connect"@ {
            Command::Connect
        } else if w == "stop"@ || w == "pause"@ {
            Command::Pause
        } else if w == "start"@ || w == "resume"@ {
            Command::Resume
        } else {
            Command::Ignored
        },
    }
}

/// The status shown after a command: paused by `Pause`, back to offline
/// (so that it reconnects) by `Resume`, unchanged by the others.
pub open spec fn status_after(status: AppStatus, command: Command) -> AppStatus {
    match command {
        Command::Pause => AppStatus::Paused,
        Command::Resume => AppStatus::Offline,
        _ => status,
    }
}

/// The status that shows a session: paused while paused, else what its
/// last probe said (connecting while nothing has been probed yet).
pub open spec fn status_of_session(s: Session) -> AppStatus {
    if s.paused {
        AppStatus::Paused
    } else {
        match s.connectivity {
            Connectivity::Unknown => AppStatus::Connecting,
            Connectivity::Connected => AppStatus::Online,
            Connectivity::Disconnected => AppStatus::Offline,
        }
    }
}

/// The popup after a key. A key that edits a field leaves it as it is.
pub open spec fn popup_after(p: Popup, key: PopupKey) -> Popup {
    match key {
        PopupKey::Cancel => Popup { visible: false, ..p },
        PopupKey::SwitchField => Popup { focus_password: !p.focus_password, ..p },
        PopupKey::Submit => Popup { visible: false, ..p },
        PopupKey::Edit => p,
    }
}

/// The command a word names (`None`: the line held no word).
pub fn command_for_word(word: Option<&str>) -> (r: Command)
    ensures
        r == command_named(
            match word {
                Some(w) => Some(w@),
                None => None,
            },
        ),
{
    match word {
        None => Command::Ignored,
        Some(w) => {
            if crate::text::same_text(w, "quit") || crate::text::same_text(w, "exit") {
                Command::Quit
            } else if crate::text::same_text(w, "login") {
                Command::Login
            } else if crate::text::same_text(w, "connect") {
                Command::Connect
            } else if crate::text::same_text(w, "stop") || crate::text::same_text(w, "pause") {
                Command::Pause
            } else if crate::text::same_text(w, "start") || crate::text::same_text(w, "resume") {
                Command::Resume
            } else {
                Command::Ignored
            }
        },
    }
}

/// The command a typed line names: its first word decides, the rest of the
/// line is ignored.
pub fn parse_command(line: &str) -> (r: Command)
    ensures
        r == command_named(first_word_of(line@)),
        line@.len() == 0 ==> r == Command::Ignored,
{
    command_for_word(first_word(line))
}

impl AppStatus {
    /// The status that shows `session`.
    pub fn of_session(session: &Session) -> (r: AppStatus)
        ensures
            r == status_of_session(*session),
    {
        if session.paused {
            AppStatus::Paused
        } else {
            match session.connectivity {
                Connectivity::Unknown => AppStatus::Connecting,
                Connectivity::Connected => AppStatus::Online,
                Connectivity::Disconnected => AppStatus::Offline,
            }
        }
    }

    /// The status shown after `command`.
    pub fn after_command(self, command: Command) -> (r: AppStatus)
        ensures
            r == status_after(self, command),
    {
        match command {
            Command::Pause => AppStatus::Paused,
            Command::Resume => AppStatus::Offline,
            _ => self,
        }
    }
}

impl Popup {
    /// The popup before the `login` command: hidden.
    pub fn hidden() -> (r: Popup)
        ensures
            !r.visible,
            !r.focus_password,
    {
        Popup { visible: false, focus_password: false }
    }

    /// The popup as the `login` command opens it: shown, the username field
    /// focused.
    pub fn opened() -> (r: Popup)
        ensures
            r.visible,
            !r.focus_password,
    {
        Popup { visible: true, focus_password: false }
    }

    /// The popup after `key`.
    pub fn after_key(self, key: PopupKey) -> (r: Popup)
        ensures
            r == popup_after(self, key),
    {
        match key {
            PopupKey::Cancel => Popup { visible: false, ..self },
            PopupKey::SwitchField => Popup { focus_password: !self.focus_password, ..self },
            PopupKey::Submit => Popup { visible: false, ..self },
            PopupKey::Edit => self,
        }
    }
}

impl Config {
    /// Takes credentials entered by the user: both replace the configured
    /// ones when neither is empty; otherwise nothing changes. Returns whether
    /// they were taken.
    pub fn update_credentials(&mut self, username: String, password: String) -> (r: bool)
        ensures
            r == (username@.len() > 0 && password@.len() > 0),
            r ==> *final(self) == (Config {
                username,
                password: Some(password),
                ..*old(self)
            }),
            !r ==> *final(self) == *old(self),
    {
        if username.as_str().is_empty() || password.as_str().is_empty() {
            false
        } else {
            self.username = username;
            self.password = Some(password);
            true
        }
    }
}

} // verus!

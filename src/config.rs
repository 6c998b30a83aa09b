//! The long-lived configuration and the rules that resolve the password.
use crate::credentials::CredentialManager;
use crate::error::Error;
use crate::text::{flag_value, parse_flag, parse_unsigned, unsigned_value};
use vstd::prelude::*;

verus! {

/// Probe cadence, in seconds, of a fresh configuration.
pub const DEFAULT_INTERVAL_SECONDS: u64 = 300;

/// Login attempts before the extended backoff, in a fresh configuration.
pub const DEFAULT_MAX_LOGIN_ATTEMPTS: u32 = 20;

/// The configuration the control loop reads at the start of every cycle.
#[derive(Debug, Clone)]
pub struct Config {
    /// Portal username; required for any request.
    pub username: String,
    /// Plaintext password; a fallback for machines without a secure store.
    pub password: Option<String>,
    /// Address reported to the portal; may be absent.
    pub ip_address: Option<String>,
    /// Seconds between two control-loop cycles.
    pub interval: u64,
    /// Login attempts while disconnected before the extended backoff.
    pub max_attempt: u32,
    /// Whether the control loop starts unpaused.
    pub auto_login: bool,
    /// Log verbosity: error, warn, info, debug or trace.
    pub log_level: String,
}

/// Values taken from the environment, one per configuration field; `None`
/// where the variable is not set. Each one replaces its field when it can
/// be read; one that cannot be read is ignored.
pub struct EnvOverrides {
    pub username: Option<String>,
    pub password: Option<String>,
    pub ip_address: Option<String>,
    pub interval: Option<String>,
    pub max_attempt: Option<String>,
    pub auto_login: Option<String>,
}

/// The field after an override that is taken as it stands.
pub open spec fn text_override(field: Seq<char>, o: Option<String>) -> Seq<char> {
    match o {
        Some(v) => v@,
        None => field,
    }
}

/// The optional field after an override that is taken as it stands.
pub open spec fn optional_override(field: Option<String>, o: Option<String>) -> Option<String> {
    match o {
        Some(v) => Some(v),
        None => field,
    }
}

/// The number after an override that must read as a number up to `max`.
pub open spec fn number_override(field: nat, o: Option<String>, max: nat) -> nat {
    match o {
        Some(v) => match unsigned_value(v@, max) {
            Some(n) => n,
            None => field,
        },
        None => field,
    }
}

/// The flag after an override that must read as `true` or `false`.
pub open spec fn flag_override(field: bool, o: Option<String>) -> bool {
    match o {
        Some(v) => match flag_value(v@) {
            Some(b) => b,
            None => field,
        },
        None => field,
    }
}

/// The text of an optional string, as a sequence of characters.
pub open spec fn text_of(o: Option<String>) -> Option<Seq<char>> {
    match o {
        Some(s) => Some(s@),
        None => None,
    }
}

/// Whether an optional text is present and non-empty.
pub open spec fn is_filled(o: Option<Seq<char>>) -> bool {
    match o {
        Some(s) => s.len() > 0,
        None => false,
    }
}

/// The password that is used for a login: the plaintext one when it is
/// non-empty, else what the secure store holds for a non-empty username,
/// else the empty text ("missing credentials").
pub open spec fn resolved_password(
    plaintext: Option<Seq<char>>,
    username: Seq<char>,
    stored: Option<Seq<char>>,
) -> Seq<char> {
    if is_filled(plaintext) {
        plaintext->0
    } else if username.len() > 0 && stored is Some {
        stored->0
    } else {
        Seq::empty()
    }
}

/// A non-empty plaintext password is used whatever the secure store answers,
/// also when the store cannot be reached; with no plaintext password (absent
/// or empty) and a username set, the value held in the store is used.
pub proof fn law_password_precedence(
    plaintext: Option<Seq<char>>,
    username: Seq<char>,
    stored: Option<Seq<char>>,
)
    ensures
        is_filled(plaintext) ==> resolved_password(plaintext, username, None) == plaintext->0,
        is_filled(plaintext) ==> resolved_password(plaintext, username, stored) == plaintext->0,
        !is_filled(plaintext) && username.len() > 0 && stored is Some ==> resolved_password(
            plaintext,
            username,
            stored,
        ) == stored->0,
{
}

/// Copies an optional string, keeping its text.
fn copy_text(o: &Option<String>) -> (r: Option<String>)
    ensures
        r == *o,
{
    match o {
        Some(s) => Some(s.clone()),
        None => None,
    }
}

impl Default for Config {
    fn default() -> (r: Config)
        ensures
            r.username@.len() == 0,
            r.password is None,
            r.ip_address is None,
            r.interval == DEFAULT_INTERVAL_SECONDS,
            r.max_attempt == DEFAULT_MAX_LOGIN_ATTEMPTS,
            r.auto_login,
            r.log_level@ == "info"@,
    {
        Config {
            username: String::new(),
            password: None,
            ip_address: None,
            interval: DEFAULT_INTERVAL_SECONDS,
            max_attempt: DEFAULT_MAX_LOGIN_ATTEMPTS,
            auto_login: true,
            log_level: "info".to_owned(),
        }
    }
}

impl Config {
    /// Applies the environment's overrides, each on its own: a text field
    /// takes the value as it is; a number or a flag takes it only when it
    /// reads as one, and is otherwise left as it was.
    pub fn apply_overrides(&mut self, overrides: EnvOverrides)
        ensures
            final(self).username@ == text_override(old(self).username@, overrides.username),
            final(self).password == optional_override(old(self).password, overrides.password),
            final(self).ip_address == optional_override(old(self).ip_address, overrides.ip_address),
            final(self).interval as nat == number_override(
                old(self).interval as nat,
                overrides.interval,
                u64::MAX as nat,
            ),
            final(self).max_attempt as nat == number_override(
                old(self).max_attempt as nat,
                overrides.max_attempt,
                u32::MAX as nat,
            ),
            final(self).auto_login == flag_override(old(self).auto_login, overrides.auto_login),
            final(self).log_level == old(self).log_level,
    {
        let EnvOverrides { username, password, ip_address, interval, max_attempt, auto_login } =
            overrides;
        if let Some(v) = username {
            self.username = v;
        }
        if let Some(v) = password {
            self.password = Some(v);
        }
        if let Some(v) = ip_address {
            self.ip_address = Some(v);
        }
        if let Some(v) = interval {
            if let Some(n) = parse_unsigned(v.as_str(), u64::MAX) {
                self.interval = n;
            }
        }
        if let Some(v) = max_attempt {
            if let Some(n) = parse_unsigned(v.as_str(), u32::MAX as u64) {
                self.max_attempt = n as u32;
            }
        }
        if let Some(v) = auto_login {
            if let Some(b) = parse_flag(v.as_str()) {
                self.auto_login = b;
            }
        }
    }

    /// Whether a non-empty plaintext password is configured.
    pub fn has_plaintext_password(&self) -> (r: bool)
        ensures
            r == is_filled(text_of(self.password)),
    {
        match &self.password {
            Some(p) => !p.as_str().is_empty(),
            None => false,
        }
    }

    /// The password resolved from the plaintext value and `stored`, the
    /// secure store's answer for this username (`None` when it had none or
    /// could not be reached).
    pub fn resolve_password(&self, stored: Option<String>) -> (r: String)
        ensures
            r@ == resolved_password(text_of(self.password), self.username@, text_of(stored)),
    {
        if self.has_plaintext_password() {
            match &self.password {
                Some(p) => p.clone(),
                None => String::new(),
            }
        } else if !self.username.as_str().is_empty() {
            match stored {
                Some(p) => p,
                None => String::new(),
            }
        } else {
            String::new()
        }
    }

    /// The password for a login. The secure store is asked only when no
    /// non-empty plaintext password is configured and the username is set;
    /// a store failure counts as "no stored password".
    pub fn get_password(&self) -> (r: String)
        ensures
            exists|stored: Option<Seq<char>>|
                r@ == resolved_password(text_of(self.password), self.username@, stored),
            is_filled(text_of(self.password)) ==> r@ == self.password->0@,
            !is_filled(text_of(self.password)) && self.username@.len() == 0 ==> r@.len() == 0,
    {
        let stored = if self.has_plaintext_password() || self.username.as_str().is_empty() {
            None
        } else {
            match CredentialManager::get_password(self.username.as_str()) {
                Ok(p) => Some(p),
                Err(_) => None,
            }
        };
        let r = self.resolve_password(stored);
        assert(r@ == resolved_password(text_of(self.password), self.username@, text_of(stored)));
        r
    }

    /// Whether the plaintext password is to be moved into the secure store:
    /// both it and the username are non-empty.
    pub open spec fn needs_migration(&self) -> bool {
        is_filled(text_of(self.password)) && self.username@.len() > 0
    }

    /// This configuration with the plaintext password left out.
    pub open spec fn without_plaintext(&self) -> Config {
        Config { password: None, ..*self }
    }

    /// Copies the plaintext password into the secure store when it is to be
    /// migrated. `Ok(true)`: the store took it; `Ok(false)`: there was
    /// nothing to migrate; `Err(SecureStore)`: the store refused it, and the
    /// plaintext value stays in use. The caller never fails on that error.
    pub fn migrate_password(&self) -> (r: Result<bool, Error>)
        ensures
            !self.needs_migration() ==> r == Ok::<bool, Error>(false),
            self.needs_migration() ==> r == Ok::<bool, Error>(true) || r == Err::<bool, Error>(
                Error::SecureStore,
            ),
    {
        if self.has_plaintext_password() && !self.username.as_str().is_empty() {
            match &self.password {
                Some(p) => match CredentialManager::set_password(self.username.as_str(), p.as_str()) {
                    Ok(()) => Ok(true),
                    Err(_) => Err(Error::SecureStore),
                },
                None => Ok(false),
            }
        } else {
            Ok(false)
        }
    }

    /// The configuration as it is to be persisted, given whether the
    /// password was migrated: a migrated password is left out of the file.
    pub fn persisted_form(&self, migrated: bool) -> (r: Config)
        ensures
            r == (if migrated && self.needs_migration() {
                self.without_plaintext()
            } else {
                *self
            }),
    {
        let password = if migrated && self.has_plaintext_password()
            && !self.username.as_str().is_empty() {
            None
        } else {
            copy_text(&self.password)
        };
        Config {
            username: self.username.clone(),
            password,
            ip_address: copy_text(&self.ip_address),
            interval: self.interval,
            max_attempt: self.max_attempt,
            auto_login: self.auto_login,
            log_level: self.log_level.clone(),
        }
    }

}

} // verus!

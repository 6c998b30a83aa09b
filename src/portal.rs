//! The three portal requests: what they carry and how their answers are read.
//!
//! The requests themselves are sent by the caller; this module builds the
//! form payloads (bit-exact for the portal's protocol) and decides from the
//! HTTP status and body what each answer means.
use crate::config::{is_filled, resolved_password, text_of, Config};
use crate::error::Error;
use crate::text::{push_char, same_text, trim_text, trimmed};
use vstd::prelude::*;

verus! {

/// The portal's login endpoint.
pub const LOGIN_URL: &'static str = "https://portal.kmitl.ac.th:19008/portalauth/login";

/// The endpoint that keeps an authenticated session alive.
pub const HEARTBEAT_URL: &'static str = "https://nani.csc.kmitl.ac.th/network-api/data/";

/// The external connectivity-check endpoint.
pub const PROBE_URL: &'static str = "http://detectportal.firefox.com/success.txt";

/// What the connectivity-check endpoint answers when the internet is reachable.
pub const PROBE_SENTINEL: &'static str = "success";

/// The access-controller address that every login names.
pub const ACCESS_CONTROLLER_IP: &'static str = "10.252.13.10";

/// The client identity that every heartbeat reports.
pub const CLIENT_IDENTITY: &'static str = "Chrome v116.0.5845.141 on Windows 10 64-bit";

/// The link speed that every heartbeat reports.
pub const CLIENT_SPEED: &'static str = "1.29";

/// Seconds after which a portal request is abandoned.
pub const REQUEST_TIMEOUT_SECONDS: u64 = 10;

/// One form field as (name, value) texts.
pub open spec fn field_view(f: (String, String)) -> (Seq<char>, Seq<char>) {
    (f.0@, f.1@)
}

/// A form as the sequence of its (name, value) texts.
pub open spec fn form_view(form: Seq<(String, String)>) -> Seq<(Seq<char>, Seq<char>)> {
    form.map_values(|f: (String, String)| field_view(f))
}

/// The login form, field by field, in the order it is sent.
pub open spec fn login_fields(
    username: Seq<char>,
    password: Seq<char>,
    ip_address: Seq<char>,
    mac_address: Seq<char>,
) -> Seq<(Seq<char>, Seq<char>)> {
    seq![
        ("userName"@, username),
        ("userPass"@, password),
        ("uaddress"@, ip_address),
        ("umac"@, mac_address),
        ("agreed"@, "1"@),
        ("acip"@, ACCESS_CONTROLLER_IP@),
        ("authType"@, "1"@),
    ]
}

/// The heartbeat form, field by field, in the order it is sent.
pub open spec fn heartbeat_fields(username: Seq<char>) -> Seq<(Seq<char>, Seq<char>)> {
    seq![
        ("username"@, username),
        ("os"@, CLIENT_IDENTITY@),
        ("speed"@, CLIENT_SPEED@),
        ("newauth"@, "1"@),
    ]
}

/// What a login attempt is to send: the form, or `MissingCredentials` when
/// the username or the password is empty (and then nothing is sent).
pub open spec fn login_plan(
    username: Seq<char>,
    password: Seq<char>,
    ip_address: Seq<char>,
    mac_address: Seq<char>,
) -> Result<Seq<(Seq<char>, Seq<char>)>, Error> {
    if username.len() == 0 || password.len() == 0 {
        Err(Error::MissingCredentials)
    } else {
        Ok(login_fields(username, password, ip_address, mac_address))
    }
}

/// A built form, or the error, as texts.
pub open spec fn plan_view(r: Result<Vec<(String, String)>, Error>) -> Result<
    Seq<(Seq<char>, Seq<char>)>,
    Error,
> {
    match r {
        Ok(form) => Ok(form_view(form@)),
        Err(e) => Err(e),
    }
}

/// The address the configuration reports, empty when it has none.
pub open spec fn configured_ip(config: Config) -> Seq<char> {
    match config.ip_address {
        Some(ip) => ip@,
        None => Seq::empty(),
    }
}

/// Whether an HTTP status is in the success range.
pub open spec fn is_success_status(status: u16) -> bool {
    200 <= status <= 299
}

/// How a login answer with this status is read: any success status is a
/// successful login (the body is not inspected).
pub open spec fn login_verdict(status: u16) -> Result<(), Error> {
    if is_success_status(status) {
        Ok(())
    } else {
        Err(Error::RequestRejected(status))
    }
}

/// The sixteen lower-case hexadecimal digits.
pub open spec fn hex_digits() -> Seq<char> {
    seq!['0', '1', '2', '3', '4', '5', '6', '7', '8', '9', 'a', 'b', 'c', 'd', 'e', 'f']
}

/// A byte as two lower-case hexadecimal digits.
pub open spec fn byte_hex(b: u8) -> Seq<char> {
    seq![hex_digits()[(b / 16) as int], hex_digits()[(b % 16) as int]]
}

/// Bytes as lower-case hexadecimal text, two digits each, no separators.
pub open spec fn bytes_hex(bytes: Seq<u8>) -> Seq<char>
    decreases bytes.len(),
{
    if bytes.len() == 0 {
        Seq::empty()
    } else {
        bytes_hex(bytes.drop_last()) + byte_hex(bytes.last())
    }
}

/// The hardware address a login reports: the interface's address in
/// hexadecimal, or twelve zeros when it is unknown.
pub open spec fn mac_identifier_of(bytes: Option<[u8; 6]>) -> Seq<char> {
    match bytes {
        Some(b) => bytes_hex(b@),
        None => bytes_hex(Seq::new(6, |i: int| 0u8)),
    }
}

fn field(name: &str, value: &str) -> (r: (String, String))
    ensures
        field_view(r) == (name@, value@),
{
    (name.to_owned(), value.to_owned())
}

/// Builds the login form, or fails fast with `MissingCredentials`, without
/// any request, when the username or the password is empty.
pub fn login_form(username: &str, password: &str, ip_address: &str, mac_address: &str) -> (r:
    Result<Vec<(String, String)>, Error>)
    ensures
        plan_view(r) == login_plan(username@, password@, ip_address@, mac_address@),
{
    if username.is_empty() || password.is_empty() {
        return Err(Error::MissingCredentials);
    }
    let mut form: Vec<(String, String)> = Vec::new();
    form.push(field("userName", username));
    form.push(field("userPass", password));
    form.push(field("uaddress", ip_address));
    form.push(field("umac", mac_address));
    form.push(field("agreed", "1"));
    form.push(field("acip", ACCESS_CONTROLLER_IP));
    form.push(field("authType", "1"));
    assert(form_view(form@) =~= login_fields(username@, password@, ip_address@, mac_address@));
    Ok(form)
}

/// Builds the login form for `config`, with the password resolved from the
/// plaintext value and the secure store, and the configured address (empty
/// when none is set).
pub fn login_form_for(config: &Config, mac_address: &str) -> (r: Result<
    Vec<(String, String)>,
    Error,
>)
    ensures
        exists|stored: Option<Seq<char>>|
            plan_view(r) == login_plan(
                config.username@,
                resolved_password(text_of(config.password), config.username@, stored),
                configured_ip(*config),
                mac_address@,
            ),
        config.username@.len() == 0 ==> r == Err::<Vec<(String, String)>, Error>(
            Error::MissingCredentials,
        ),
        is_filled(text_of(config.password)) ==> plan_view(r) == login_plan(
            config.username@,
            config.password->0@,
            configured_ip(*config),
            mac_address@,
        ),
{
    let password = config.get_password();
    let r = match &config.ip_address {
        Some(ip) => login_form(config.username.as_str(), password.as_str(), ip.as_str(), mac_address),
        None => login_form(config.username.as_str(), password.as_str(), "", mac_address),
    };
    proof {
        if config.ip_address is None {
            reveal_strlit("");
            assert(""@ =~= configured_ip(*config));
        }
        let stored = choose|stored: Option<Seq<char>>|
            password@ == resolved_password(text_of(config.password), config.username@, stored);
        assert(plan_view(r) == login_plan(
            config.username@,
            resolved_password(text_of(config.password), config.username@, stored),
            configured_ip(*config),
            mac_address@,
        ));
    }
    r
}

/// Builds the heartbeat form for `username`.
pub fn heartbeat_form(username: &str) -> (r: Vec<(String, String)>)
    ensures
        form_view(r@) == heartbeat_fields(username@),
{
    let mut form: Vec<(String, String)> = Vec::new();
    form.push(field("username", username));
    form.push(field("os", CLIENT_IDENTITY));
    form.push(field("speed", CLIENT_SPEED));
    form.push(field("newauth", "1"));
    assert(form_view(form@) =~= heartbeat_fields(username@));
    form
}

/// Reads the login answer's status.
pub fn login_verdict_for(status: u16) -> (r: Result<(), Error>)
    ensures
        r == login_verdict(status),
{
    if 200 <= status && status <= 299 {
        Ok(())
    } else {
        Err(Error::RequestRejected(status))
    }
}

/// Whether a heartbeat answer with this status was accepted.
pub fn heartbeat_accepted(status: u16) -> (r: bool)
    ensures
        r == is_success_status(status),
{
    200 <= status && status <= 299
}

/// Reads a probe answer whose body is already trimmed: connected exactly when
/// the status is 200 and the body is the sentinel.
pub fn probe_answer_matches(status: u16, trimmed_body: &str) -> (r: bool)
    ensures
        r == (status == 200 && trimmed_body@ == PROBE_SENTINEL@),
{
    status == 200 && same_text(trimmed_body, PROBE_SENTINEL)
}

/// Reads a probe answer: connected exactly when the status is 200 and the
/// body, without surrounding white space, is the sentinel.
pub fn probe_succeeded(status: u16, body: &str) -> (r: bool)
    ensures
        r == (status == 200 && trimmed(body@) == PROBE_SENTINEL@),
{
    probe_answer_matches(status, trim_text(body))
}

fn hex_digit(n: u8) -> (r: char)
    requires
        n < 16,
    ensures
        r == hex_digits()[n as int],
{
    let digits: [char; 16] = [
        '0', '1', '2', '3', '4', '5', '6', '7', '8', '9', 'a', 'b', 'c', 'd', 'e', 'f',
    ];
    assert(digits@ =~= hex_digits());
    digits[n as usize]
}

/// The hardware address as the portal expects it: twelve lower-case
/// hexadecimal digits, or twelve zeros when the address is unknown.
pub fn mac_identifier(bytes: Option<[u8; 6]>) -> (r: String)
    ensures
        r@ == mac_identifier_of(bytes),
{
    let b: [u8; 6] = match bytes {
        Some(b) => b,
        None => [0u8; 6],
    };
    let mut s = String::new();
    let mut i: usize = 0;
    while i < 6
        invariant
            i <= 6,
            s@ == bytes_hex(b@.subrange(0, i as int)),
        decreases 6 - i,
    {
        push_char(&mut s, hex_digit(b[i] / 16));
        push_char(&mut s, hex_digit(b[i] % 16));
        assert(b@.subrange(0, i + 1).drop_last() =~= b@.subrange(0, i as int));
        i = i + 1;
    }
    assert(b@.subrange(0, 6) =~= b@);
    proof {
        if bytes is None {
            assert(b@ =~= Seq::new(6, |i: int| 0u8));
        }
    }
    s
}

} // verus!

use vstd::prelude::*;

verus! {

/// Every failure the library reports.
///
/// None of them is fatal to the control loop: each one is folded into a
/// decision (skip the request, retry later, back off).
#[derive(Debug, Clone, PartialEq, Eq)]
pub enum Error {
    /// Reading or writing a local file failed; the text describes why.
    Io(String),
    /// The request never got an HTTP answer (DNS, TCP, TLS or a timeout).
    Transport,
    /// The portal answered with a status outside the success range.
    RequestRejected(u16),
    /// The username or the password is empty, so no request was made.
    MissingCredentials,
    /// The persisted configuration could not be read or written.
    Config(String),
    /// The secure credential store refused the operation or holds no entry.
    SecureStore,
}

/// The result type of the library's fallible operations.
pub type Result<T> = core::result::Result<T, Error>;

} // verus!

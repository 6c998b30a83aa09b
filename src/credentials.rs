//! Access to the secure credential store, keyed by this program's service
//! name and the portal username.
use crate::credentials_store::{load_password, open_entry, remove_password, store_password};
use crate::error::{Error, Result};
use vstd::prelude::*;

verus! {

/// The service name under which passwords are kept in the secure store.
pub const SERVICE_NAME: &'static str = "kmitlnetauth";

/// Reads and writes portal passwords in the operating system's secure store.
///
/// Every failure of the store (unreachable, locked, no entry) is reported as
/// [`Error::SecureStore`]; callers treat it as "no stored password".
pub struct CredentialManager;

impl CredentialManager {
    /// Stores `password` for `username`.
    pub fn set_password(username: &str, password: &str) -> (r: Result<()>)
        ensures
            r.is_err() ==> r == Err::<(), Error>(Error::SecureStore),
    {
        match open_entry(SERVICE_NAME, username) {
            Some(entry) => if store_password(&entry, password) {
                Ok(())
            } else {
                Err(Error::SecureStore)
            },
            None => Err(Error::SecureStore),
        }
    }

    /// Reads the password stored for `username`.
    pub fn get_password(username: &str) -> (r: Result<String>)
        ensures
            r.is_err() ==> r == Err::<String, Error>(Error::SecureStore),
    {
        match open_entry(SERVICE_NAME, username) {
            Some(entry) => match load_password(&entry) {
                Some(pwd) => Ok(pwd),
                None => Err(Error::SecureStore),
            },
            None => Err(Error::SecureStore),
        }
    }

    /// Removes the password stored for `username`.
    pub fn delete_password(username: &str) -> (r: Result<()>)
        ensures
            r.is_err() ==> r == Err::<(), Error>(Error::SecureStore),
    {
        match open_entry(SERVICE_NAME, username) {
            Some(entry) => if remove_password(&entry) {
                Ok(())
            } else {
                Err(Error::SecureStore)
            },
            None => Err(Error::SecureStore),
        }
    }
}

} // verus!

//! The operating system's secure credential store, reached through `keyring`.
//!
//! What the store holds, and whether it can be reached at all, depends on
//! the machine and on what other programs wrote there, so none of these
//! wrappers promises anything about the outcome of a call. Each one turns
//! the store's error into `None` or `false`.
use vstd::prelude::*;

verus! {

/// `keyring::Entry`: a handle on one (service, user) slot of the store.
#[verifier::external_type_specification]
#[verifier::external_body]
pub struct ExEntry(keyring::Entry);

/// Relies on `keyring::Entry::new`: builds the handle for a (service, user)
/// pair with the default credential builder; invalid names give `None`.
#[verifier::external_body]
pub(crate) fn open_entry(service: &str, user: &str) -> (r: Option<keyring::Entry>) {
    keyring::Entry::new(service, user).ok()
}

/// Relies on `keyring::Entry::set_password`: stores a password under the
/// entry; `false` when the store refused it.
#[verifier::external_body]
pub(crate) fn store_password(entry: &keyring::Entry, password: &str) -> (r: bool) {
    entry.set_password(password).is_ok()
}

/// Relies on `keyring::Entry::get_password`: reads the password stored under
/// the entry; `None` when there is none or the store is unreachable.
#[verifier::external_body]
pub(crate) fn load_password(entry: &keyring::Entry) -> (r: Option<String>) {
    entry.get_password().ok()
}

/// Relies on `keyring::Entry::delete_credential`: removes the entry's
/// password from the store; `false` when it could not.
#[verifier::external_body]
pub(crate) fn remove_password(entry: &keyring::Entry) -> (r: bool) {
    entry.delete_credential().is_ok()
}

} // verus!

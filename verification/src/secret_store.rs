//! The optional secure credential cache behind the publish orchestrator:
//! get/set/delete of one secret per username, with the orchestrator's
//! reading of each outcome.
//!
//! The store is a capability of the hosting environment. Nothing can be
//! promised about what it holds — two reads may differ — so the wrappers
//! state nothing, and the verified functions around them say how every
//! possible outcome is treated: an absent entry, or no storage access at
//! all, counts as already satisfied when invalidating, and a failure to
//! cache is only ever a warning.

use vstd::prelude::*;
use vstd::string::StringExecFns;

verus! {

/// The keyring service name all cached secrets of this crate live under.
pub fn secret_service_name() -> (r: &'static str)
    ensures
        r@ == spec_secret_service_name(),
{
    "pyo3-pack"
}

/// Specification of the service name.
pub open spec fn spec_secret_service_name() -> Seq<char> {
    "pyo3-pack"@
}

#[verifier::external_type_specification]
#[verifier::external_body]
pub struct ExKeyringEntry(keyring::Entry);

/// Outcome of removing a cached secret.
#[derive(Debug)]
pub enum SecretStoreDelete {
    /// The entry existed and was removed.
    Removed,
    /// The store has no entry for this username.
    Absent,
    /// The store itself could not be accessed.
    NoAccess,
    /// The store failed in some other way; the text describes how.
    Failed(String),
}

/// Outcome of caching a secret.
#[derive(Debug)]
pub enum SecretStoreWrite {
    /// The secret was stored.
    Stored,
    /// The store failed or is unavailable; the text describes how.
    Failed(String),
}

/// Relies on keyring::Entry::new: opens the credential-store entry for the
/// given service and username, or reports that no store is available.
#[verifier::external_body]
fn keyring_entry(service: &str, username: &str) -> Option<keyring::Entry> {
    keyring::Entry::new(service, username).ok()
}

/// Relies on keyring::Entry::get_password: the secret stored for this entry,
/// if the store holds one and it is readable.
#[verifier::external_body]
fn keyring_get_password(entry: &keyring::Entry) -> Option<String> {
    entry.get_password().ok()
}

/// Relies on keyring::Entry::set_password: stores the secret, replacing any
/// previous one.
#[verifier::external_body]
fn keyring_set_password(entry: &keyring::Entry, password: &str) -> SecretStoreWrite {
    match entry.set_password(password) {
        Ok(()) => SecretStoreWrite::Stored,
        Err(e) => SecretStoreWrite::Failed(e.to_string()),
    }
}

/// Relies on keyring::Entry::delete_credential: removes the entry, telling
/// a missing entry and an inaccessible store apart from real failures.
#[verifier::external_body]
fn keyring_delete_credential(entry: &keyring::Entry) -> SecretStoreDelete {
    match entry.delete_credential() {
        Ok(()) => SecretStoreDelete::Removed,
        Err(keyring::Error::NoEntry) => SecretStoreDelete::Absent,
        Err(keyring::Error::NoStorageAccess(_)) => SecretStoreDelete::NoAccess,
        Err(e) => SecretStoreDelete::Failed(e.to_string()),
    }
}

/// The cached secret for `username`, if a store is available and holds one.
pub fn lookup_cached_secret(username: &str) -> Option<String> {
    match keyring_entry(secret_service_name(), username) {
        Some(entry) => keyring_get_password(&entry),
        None => None,
    }
}

/// Best-effort removal of the cached secret for `username`, as the
/// orchestrator performs it after an authentication failure.
pub fn invalidate_cached_secret(username: &str) -> SecretStoreDelete {
    match keyring_entry(secret_service_name(), username) {
        Some(entry) => keyring_delete_credential(&entry),
        None => SecretStoreDelete::NoAccess,
    }
}

/// Best-effort caching of the secret that just authenticated successfully.
pub fn cache_secret(username: &str, secret: &str) -> SecretStoreWrite {
    match keyring_entry(secret_service_name(), username) {
        Some(entry) => keyring_set_password(&entry, secret),
        None => SecretStoreWrite::Failed(String::from_str("no secret store is available")),
    }
}

/// How the orchestrator reads a removal outcome: only an explicit store
/// failure deserves a warning; an absent entry or an unavailable store is
/// already the state the removal was after, and is never reported as an
/// error.
pub fn delete_needs_warning(outcome: &SecretStoreDelete) -> (r: bool)
    ensures
        r == (outcome matches SecretStoreDelete::Failed(_)),
        (outcome is Absent || outcome is NoAccess) ==> !r,
{
    match outcome {
        SecretStoreDelete::Failed(_) => true,
        _ => false,
    }
}

/// How the orchestrator reads a caching outcome: a failure to cache is a
/// warning, never an aborting error.
pub fn write_needs_warning(outcome: &SecretStoreWrite) -> (r: bool)
    ensures
        r == (outcome matches SecretStoreWrite::Failed(_)),
{
    match outcome {
        SecretStoreWrite::Failed(_) => true,
        SecretStoreWrite::Stored => false,
    }
}

} // verus!

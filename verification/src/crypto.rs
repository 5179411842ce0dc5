use vstd::prelude::*;

use keyring::Entry;

use crate::error::AppError;

verus! {

#[verifier::external_type_specification]
#[verifier::external_body]
pub struct ExEntry(Entry);

#[verifier::external_type_specification]
#[verifier::external_body]
pub struct ExKeyringError(keyring::Error);

/// The service under which the API key is kept in the system keyring.
pub const SERVICE_NAME: &'static str = "murmure2";

/// The user name under which the API key is kept.
pub const USERNAME: &'static str = "api_key";

/// The service and user under which the API key is kept:
/// (`murmure2`, `api_key`).
pub fn keyring_account() -> (r: (&'static str, &'static str))
    ensures
        r.0@ == "murmure2"@,
        r.1@ == "api_key"@,
{
    (SERVICE_NAME, USERNAME)
}

/// Whether `s` begins with `prefix`.
pub open spec fn starts_with(s: Seq<char>, prefix: Seq<char>) -> bool {
    prefix.len() <= s.len() && s.subrange(0, prefix.len() as int) == prefix
}

/// Whether `e` is the error of a keyring step that failed: a
/// `ConfigError` whose message is `Failed to <step>: <reason>`.
pub open spec fn is_keyring_failure(e: AppError, step: Seq<char>) -> bool {
    e matches AppError::ConfigError(m) && starts_with(m@, "Failed to "@ + step + ": "@)
}

/// Calls `keyring::Entry::new`: the keyring entry for a service and a user.
/// Whether it succeeds depends on the platform's store: nothing is claimed.
#[verifier::external_body]
fn entry_new(service: &str, user: &str) -> Result<Entry, keyring::Error> {
    Entry::new(service, user)
}

/// Calls `Entry::set_password`. Whether it succeeds depends on the
/// platform's store: nothing is claimed.
#[verifier::external_body]
fn entry_set_password(entry: &Entry, password: &str) -> Result<(), keyring::Error> {
    entry.set_password(password)
}

/// Calls `Entry::get_password`. What it returns depends on the platform's
/// store, which other programs share: nothing is claimed.
#[verifier::external_body]
fn entry_get_password(entry: &Entry) -> Result<String, keyring::Error> {
    entry.get_password()
}

/// Calls `Entry::delete_credential`. Whether it succeeds depends on the
/// platform's store: nothing is claimed.
#[verifier::external_body]
fn entry_delete_credential(entry: &Entry) -> Result<(), keyring::Error> {
    entry.delete_credential()
}

/// Calls the `Display` of `keyring::Error`: the reason a keyring step
/// failed. Nothing is claimed of the text.
#[verifier::external_body]
fn keyring_error_text(e: &keyring::Error) -> String {
    format!("{}", e)
}

/// The error for a keyring step that failed, given the reason that the
/// keyring reported: `Failed to <step>: <reason>`.
pub fn keyring_failure(step: &str, reason: String) -> (r: AppError)
    ensures
        r matches AppError::ConfigError(m) && m@ == "Failed to "@ + step@ + ": "@ + reason@,
        is_keyring_failure(r, step@),
{
    let prefix = String::from_str("Failed to ").concat(step).concat(": ");
    let m = prefix.concat(reason.as_str());
    proof {
        assert(m@.subrange(0, prefix@.len() as int) =~= prefix@);
    }
    AppError::ConfigError(m)
}

/// Keeps the API key in the system keyring. Whether the keyring accepts
/// it is the keyring's to decide; each failure is reported as a
/// [`keyring_failure`] of its step.
pub fn store_api_key(key: &str) -> (r: Result<(), AppError>)
    ensures
        r matches Err(e) ==> is_keyring_failure(e, "create keyring entry"@) || is_keyring_failure(
            e,
            "store API key"@,
        ),
{
    let (service, user) = keyring_account();
    let entry = match entry_new(service, user) {
        Ok(entry) => entry,
        Err(e) => {
            return Err(keyring_failure("create keyring entry", keyring_error_text(&e)));
        },
    };
    match entry_set_password(&entry, key) {
        Ok(()) => Ok(()),
        Err(e) => Err(keyring_failure("store API key", keyring_error_text(&e))),
    }
}

/// Reads the API key from the system keyring. What the keyring holds, and
/// whether it can be read, is the keyring's to decide; each failure is
/// reported as a [`keyring_failure`] of its step.
pub fn retrieve_api_key() -> (r: Result<String, AppError>)
    ensures
        r matches Err(e) ==> is_keyring_failure(e, "create keyring entry"@) || is_keyring_failure(
            e,
            "retrieve API key"@,
        ),
{
    let (service, user) = keyring_account();
    let entry = match entry_new(service, user) {
        Ok(entry) => entry,
        Err(e) => {
            return Err(keyring_failure("create keyring entry", keyring_error_text(&e)));
        },
    };
    match entry_get_password(&entry) {
        Ok(password) => Ok(password),
        Err(e) => Err(keyring_failure("retrieve API key", keyring_error_text(&e))),
    }
}

/// Removes the API key from the system keyring. Whether the keyring allows
/// it is the keyring's to decide; each failure is reported as a
/// [`keyring_failure`] of its step.
pub fn delete_api_key() -> (r: Result<(), AppError>)
    ensures
        r matches Err(e) ==> is_keyring_failure(e, "create keyring entry"@) || is_keyring_failure(
            e,
            "delete API key"@,
        ),
{
    let (service, user) = keyring_account();
    let entry = match entry_new(service, user) {
        Ok(entry) => entry,
        Err(e) => {
            return Err(keyring_failure("create keyring entry", keyring_error_text(&e)));
        },
    };
    match entry_delete_credential(&entry) {
        Ok(()) => Ok(()),
        Err(e) => Err(keyring_failure("delete API key", keyring_error_text(&e))),
    }
}

/// Whether the system keyring holds an API key that can be read.
pub fn has_api_key() -> bool {
    let (service, user) = keyring_account();
    match entry_new(service, user) {
        Ok(entry) => match entry_get_password(&entry) {
            Ok(_) => true,
            Err(_) => false,
        },
        Err(_) => false,
    }
}

} // verus!

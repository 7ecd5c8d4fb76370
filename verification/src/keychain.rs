//! The refresh token kept in the operating system's credential store.

use vstd::prelude::*;
use crate::text::{concat, has_prefix};

verus! {

/// The credential store service the refresh token is kept under.
pub const AUTH_KEYCHAIN_SERVICE: &'static str = "Supuraisu Auth";

/// The credential store account the refresh token is kept under.
pub const AUTH_KEYCHAIN_ACCOUNT: &'static str = "splice-refresh-token-v1";

/// A credential store entry of the `keyring` crate.
#[verifier::external_type_specification]
#[verifier::external_body]
pub struct ExKeyringEntry(keyring::Entry);

/// A failed credential store call.
#[derive(Debug, Clone, PartialEq, Eq)]
pub enum KeychainError {
    /// The store holds nothing for the entry; with the store's description.
    NoEntry(String),
    /// Any other failure, with the store's description of it.
    Failed(String),
}

/// The refresh token's entry in the credential store: the service and
/// account it was opened for, the store's handle, and the secret last
/// written through it.
pub struct CredentialEntry {
    service: String,
    account: String,
    store: keyring::Entry,
    written: Ghost<Option<Seq<char>>>,
}

impl CredentialEntry {
    /// The service the entry was opened for.
    pub closed spec fn service_name(&self) -> Seq<char> {
        self.service@
    }

    /// The account the entry was opened for.
    pub closed spec fn account_name(&self) -> Seq<char> {
        self.account@
    }

    /// The secret last written through this entry, if any.
    pub closed spec fn written_secret(&self) -> Option<Seq<char>> {
        self.written@
    }

    /// The service the entry was opened for.
    pub fn service(&self) -> (r: &str)
        ensures
            r@ == self.service_name(),
    {
        self.service.as_str()
    }

    /// The account the entry was opened for.
    pub fn account(&self) -> (r: &str)
        ensures
            r@ == self.account_name(),
    {
        self.account.as_str()
    }
}

/// `keyring::Entry::new(service, account)`, kept with the service and
/// account it was opened for and nothing written yet; a failure comes back
/// as the store's description of it. Whether it succeeds depends on the
/// platform's store, so success is not promised.
#[verifier::external_body]
fn keyring_entry_new(service: &str, account: &str) -> (r: Result<CredentialEntry, String>)
    ensures
        r matches Ok(e) ==> e.service_name() == service@ && e.account_name() == account@
            && e.written_secret() is None,
{
    match keyring::Entry::new(service, account) {
        Ok(store) => Ok(CredentialEntry {
            service: service.to_owned(),
            account: account.to_owned(),
            store,
            written: Ghost(None),
        }),
        Err(e) => Err(e.to_string()),
    }
}

/// `keyring::Entry::get_password`; `keyring::Error::NoEntry` comes back as
/// `NoEntry`, any other error as `Failed`, each with its description. What
/// comes back depends on the store's contents, so nothing is promised of it.
#[verifier::external_body]
fn keyring_get_password(entry: &CredentialEntry) -> (r: Result<String, KeychainError>) {
    match entry.store.get_password() {
        Ok(secret) => Ok(secret),
        Err(e @ keyring::Error::NoEntry) => Err(KeychainError::NoEntry(e.to_string())),
        Err(e) => Err(KeychainError::Failed(e.to_string())),
    }
}

/// `keyring::Entry::set_password` with `password`; errors come back as in
/// `keyring_get_password`. Whether it succeeds depends on the store; when it
/// does, `password` is the secret written through the entry.
#[verifier::external_body]
fn keyring_set_password(entry: &mut CredentialEntry, password: &str) -> (r: Result<(), KeychainError>)
    ensures
        final(entry).service_name() == old(entry).service_name(),
        final(entry).account_name() == old(entry).account_name(),
        r is Ok ==> final(entry).written_secret() == Some(password@),
        r is Err ==> final(entry).written_secret() == old(entry).written_secret(),
{
    match entry.store.set_password(password) {
        Ok(()) => {
            entry.written = Ghost(Some(password@));
            Ok(())
        },
        Err(e @ keyring::Error::NoEntry) => Err(KeychainError::NoEntry(e.to_string())),
        Err(e) => Err(KeychainError::Failed(e.to_string())),
    }
}

/// `keyring::Entry::delete_credential`; errors come back as in
/// `keyring_get_password`. Whether it succeeds depends on the store; when it
/// does, nothing is held for the entry any more.
#[verifier::external_body]
fn keyring_delete_credential(entry: &mut CredentialEntry) -> (r: Result<(), KeychainError>)
    ensures
        final(entry).service_name() == old(entry).service_name(),
        final(entry).account_name() == old(entry).account_name(),
        r is Ok ==> final(entry).written_secret() is None,
        r is Err ==> final(entry).written_secret() == old(entry).written_secret(),
{
    match entry.store.delete_credential() {
        Ok(()) => {
            entry.written = Ghost(None);
            Ok(())
        },
        Err(e @ keyring::Error::NoEntry) => Err(KeychainError::NoEntry(e.to_string())),
        Err(e) => Err(KeychainError::Failed(e.to_string())),
    }
}

/// The description of a store failure.
pub open spec fn failure_text(e: KeychainError) -> Seq<char> {
    match e {
        KeychainError::NoEntry(text) => text@,
        KeychainError::Failed(text) => text@,
    }
}

/// The description of a store failure.
pub fn keychain_error_text(e: &KeychainError) -> (r: String)
    ensures
        r@ == failure_text(*e),
{
    match e {
        KeychainError::NoEntry(text) => text.clone(),
        KeychainError::Failed(text) => text.clone(),
    }
}

/// Whether `e` is the refresh token's entry: the Supuraisu service and
/// the refresh-token account.
pub open spec fn is_refresh_token_entry(e: CredentialEntry) -> bool {
    e.service_name() == AUTH_KEYCHAIN_SERVICE@ && e.account_name() == AUTH_KEYCHAIN_ACCOUNT@
}

/// The credential store entry of the refresh token, with nothing written
/// through it yet.
pub fn refresh_token_entry() -> (r: Result<CredentialEntry, String>)
    ensures
        r matches Ok(e) ==> is_refresh_token_entry(e) && e.written_secret() is None,
        r matches Err(msg) ==> has_prefix(msg@, "Could not open Keychain entry: "@),
{
    match keyring_entry_new(AUTH_KEYCHAIN_SERVICE, AUTH_KEYCHAIN_ACCOUNT) {
        Ok(entry) => Ok(entry),
        Err(text) => {
            let msg = concat("Could not open Keychain entry: ", text.as_str());
            assert(msg@.subrange(0, "Could not open Keychain entry: "@.len() as int) =~= "Could not open Keychain entry: "@);
            Err(msg)
        },
    }
}

/// A stored token counts only when it is not empty.
pub fn nonempty_token(stored: Option<String>) -> (r: Option<String>)
    ensures
        match stored {
            Some(t) => if t@.len() > 0 {
                r == Some(t)
            } else {
                r is None
            },
            None => r is None,
        },
{
    match stored {
        Some(t) => if t.as_str().is_empty() {
            None
        } else {
            Some(t)
        },
        None => None,
    }
}

/// The refresh token a read of the store gives: the stored secret when it
/// is not empty; any failure reads as no token.
pub fn token_from_read(read: Result<String, KeychainError>) -> (r: Option<String>)
    ensures
        match read {
            Ok(t) => if t@.len() > 0 {
                r == Some(t)
            } else {
                r is None
            },
            Err(_) => r is None,
        },
{
    match read {
        Ok(t) => nonempty_token(Some(t)),
        Err(_) => None,
    }
}

/// The stored refresh token, if the store holds a non-empty one; any store
/// failure reads as no token.
pub fn read_refresh_token() -> (r: Option<String>)
    ensures
        r matches Some(t) ==> t@.len() > 0,
{
    let entry = match refresh_token_entry() {
        Ok(entry) => entry,
        Err(_) => return None,
    };
    token_from_read(keyring_get_password(&entry))
}

/// The outcome of storing the refresh token, given the store's answer.
pub fn store_outcome(written: Result<(), KeychainError>) -> (r: Result<(), String>)
    ensures
        match written {
            Ok(()) => r is Ok,
            Err(e) => r matches Err(m) && m@ == "Could not store refresh token: "@ + failure_text(e),
        },
{
    match written {
        Ok(()) => Ok(()),
        Err(e) => {
            let text = keychain_error_text(&e);
            Err(concat("Could not store refresh token: ", text.as_str()))
        },
    }
}

/// Stores `token` as the refresh token; on success, the refresh token's
/// entry with `token` written through it.
pub fn store_refresh_token(token: &str) -> (r: Result<CredentialEntry, String>)
    ensures
        r matches Ok(e) ==> is_refresh_token_entry(e) && e.written_secret() == Some(token@),
        r matches Err(msg) ==> has_prefix(msg@, "Could not open Keychain entry: "@) || has_prefix(
            msg@,
            "Could not store refresh token: "@,
        ),
{
    let mut entry = refresh_token_entry()?;
    let written = keyring_set_password(&mut entry, token);
    match store_outcome(written) {
        Ok(()) => Ok(entry),
        Err(m) => {
            assert(m@.subrange(0, "Could not store refresh token: "@.len() as int) =~= "Could not store refresh token: "@);
            Err(m)
        },
    }
}

/// The outcome of removing the refresh token, given the store's answer: a
/// store that held none is no failure.
pub fn delete_outcome(deleted: Result<(), KeychainError>) -> (r: Result<(), String>)
    ensures
        match deleted {
            Ok(()) => r is Ok,
            Err(KeychainError::NoEntry(_)) => r is Ok,
            Err(KeychainError::Failed(text)) => r matches Err(m) && m@ == "Could not delete refresh token: "@
                + text@,
        },
{
    match deleted {
        Ok(()) => Ok(()),
        Err(KeychainError::NoEntry(_)) => Ok(()),
        Err(KeychainError::Failed(text)) => Err(concat("Could not delete refresh token: ", text.as_str())),
    }
}

/// Removes the refresh token, a store that holds none being no failure;
/// on success, the refresh token's entry, with no secret held through it.
pub fn delete_refresh_token() -> (r: Result<CredentialEntry, String>)
    ensures
        r matches Ok(e) ==> is_refresh_token_entry(e) && e.written_secret() is None,
        r matches Err(msg) ==> has_prefix(msg@, "Could not open Keychain entry: "@) || has_prefix(
            msg@,
            "Could not delete refresh token: "@,
        ),
{
    let mut entry = refresh_token_entry()?;
    let deleted = keyring_delete_credential(&mut entry);
    match delete_outcome(deleted) {
        Ok(()) => Ok(entry),
        Err(m) => {
            assert(m@.subrange(0, "Could not delete refresh token: "@.len() as int) =~= "Could not delete refresh token: "@);
            Err(m)
        },
    }
}

} // verus!

//! The master-password lock of the vault.
//!
//! The hash of the master password lives in the platform's secret store,
//! under service `qoredb` and key `__master_password_hash__`. Reading and
//! writing that entry is the caller's part; what is decided on the values
//! read is decided here.

use crate::engine::error::{EngineError, ErrorKind};
use crate::text::concat2;
use argon2::password_hash::rand_core::OsRng;
use argon2::password_hash::{PasswordHash, PasswordHasher, PasswordVerifier, SaltString};
use argon2::Argon2;
use vstd::prelude::*;
use vstd::string::*;

verus! {

/// Service name of the entry that holds the master-password hash.
pub const SERVICE_NAME: &'static str = "qoredb";

/// Key of the entry that holds the master-password hash.
pub const MASTER_PASSWORD_KEY: &'static str = "__master_password_hash__";

/// What checking a password against a stored hash gives: whether it
/// matches, or the message with which the stored text was refused as a
/// hash.
pub uninterp spec fn argon2_check(password: Seq<char>, hash: Seq<char>) -> Result<bool, Seq<char>>;

/// `Argon2::default().hash_password` with a salt from
/// `SaltString::generate(OsRng)`. The salt is random, so the hash is not a
/// function of the password; what holds of every hash handed back is that
/// the same password verifies against it.
#[verifier::external_body]
fn argon2_hash(password: &str) -> (r: Result<String, String>)
    ensures
        match r {
            Ok(h) => argon2_check(password@, h@) == Ok::<bool, Seq<char>>(true),
            Err(_) => true,
        },
{
    let salt = SaltString::generate(&mut OsRng);
    match Argon2::default().hash_password(password.as_bytes(), &salt) {
        Ok(h) => Ok(h.to_string()),
        Err(e) => Err(e.to_string()),
    }
}

/// `PasswordHash::new` on the stored text, then
/// `Argon2::default().verify_password`. A text that is no hash gives the
/// parser's message; otherwise the answer is whether verification passed.
#[verifier::external_body]
fn argon2_verify(password: &str, hash: &str) -> (r: Result<bool, String>)
    ensures
        match r {
            Ok(b) => argon2_check(password@, hash@) == Ok::<bool, Seq<char>>(b),
            Err(e) => argon2_check(password@, hash@) == Err::<bool, Seq<char>>(e@),
        },
{
    match PasswordHash::new(hash) {
        Ok(parsed) => Ok(Argon2::default().verify_password(password.as_bytes(), &parsed).is_ok()),
        Err(e) => Err(e.to_string()),
    }
}

/// What a lookup in the secret store gave.
#[derive(Debug)]
pub enum StoreLookup {
    /// The entry exists; holds its text.
    Found(String),
    /// There is no such entry; holds what the store says of that.
    Missing(String),
    /// Reading the entry failed; holds the store's message.
    Failed(String),
    /// The store could not be reached at all; holds its message.
    Unavailable(String),
}

/// The lock in front of the vault.
#[derive(Debug)]
pub struct VaultLock {
    is_unlocked: bool,
}

impl VaultLock {
    /// Whether the vault is open.
    pub closed spec fn unlocked(&self) -> bool {
        self.is_unlocked
    }

    /// A locked vault.
    pub fn new() -> (l: Self)
        ensures
            !l.unlocked(),
    {
        VaultLock { is_unlocked: false }
    }

    /// Whether a master password is set, given the lookup of its hash.
    pub fn has_master_password(lookup: &StoreLookup) -> (r: Result<bool, EngineError>)
        ensures
            match *lookup {
                StoreLookup::Found(_) => r is Ok && r->Ok_0,
                StoreLookup::Missing(_) => r is Ok && !r->Ok_0,
                StoreLookup::Failed(m) => r is Err && r->Err_0.is(
                    ErrorKind::Internal,
                    "Keyring error: "@ + m@,
                ),
                StoreLookup::Unavailable(m) => r is Err && r->Err_0.is(
                    ErrorKind::Internal,
                    "Keyring error: "@ + m@,
                ),
            },
    {
        match lookup {
            StoreLookup::Found(_) => Ok(true),
            StoreLookup::Missing(_) => Ok(false),
            StoreLookup::Failed(m) => {
                let text = concat2("Keyring error: ", m.as_str());
                Err(EngineError::internal(text.as_str()))
            },
            StoreLookup::Unavailable(m) => {
                let text = concat2("Keyring error: ", m.as_str());
                Err(EngineError::internal(text.as_str()))
            },
        }
    }

    /// Hashes a new master password for storing. The hash handed back
    /// verifies against the same password.
    pub fn hash_master_password(password: &str) -> (r: Result<String, EngineError>)
        ensures
            match r {
                Ok(h) => argon2_check(password@, h@) == Ok::<bool, Seq<char>>(true),
                Err(e) => e.kind_spec() == ErrorKind::Internal && crate::text::has_prefix(
                    e.detail(),
                    "Hashing error: "@,
                ),
            },
    {
        match argon2_hash(password) {
            Ok(h) => Ok(h),
            Err(m) => {
                let text = concat2("Hashing error: ", m.as_str());
                assert(text@.subrange(0, "Hashing error: "@.len() as int) =~= "Hashing error: "@);
                Err(EngineError::internal(text.as_str()))
            },
        }
    }

    /// Ends the setting of a master password, given how storing its hash
    /// went: the vault is opened where the hash was stored, and left as it
    /// was where it was not.
    pub fn setup_master_password(&mut self, stored: Result<(), String>) -> (r: Result<
        (),
        EngineError,
    >)
        ensures
            match stored {
                Ok(_) => r is Ok && final(self).unlocked(),
                Err(m) => r is Err && r->Err_0.is(
                    ErrorKind::Internal,
                    "Failed to store master password: "@ + m@,
                ) && final(self).unlocked() == old(self).unlocked(),
            },
    {
        match stored {
            Ok(_) => {
                self.is_unlocked = true;
                Ok(())
            },
            Err(m) => {
                let text = concat2("Failed to store master password: ", m.as_str());
                Err(EngineError::internal(text.as_str()))
            },
        }
    }

    /// What `unlock` answers and whether the vault is open afterwards,
    /// given whether it was open before.
    pub open spec fn unlock_outcome(
        was_unlocked: bool,
        password: Seq<char>,
        lookup: StoreLookup,
    ) -> (Result<bool, Seq<char>>, bool) {
        match lookup {
            StoreLookup::Found(hash) => match argon2_check(password, hash@) {
                Ok(true) => (Ok(true), true),
                Ok(false) => (Ok(false), was_unlocked),
                Err(m) => (Err("Invalid stored hash: "@ + m), was_unlocked),
            },
            StoreLookup::Missing(m) => (Err("No master password set: "@ + m@), was_unlocked),
            StoreLookup::Failed(m) => (Err("No master password set: "@ + m@), was_unlocked),
            StoreLookup::Unavailable(m) => (Err("Keyring error: "@ + m@), was_unlocked),
        }
    }

    /// Opens the vault with the master password, given the lookup of its
    /// hash. `Ok(false)` means the password is wrong; an error means that
    /// no usable hash was found, or that the store could not be reached.
    pub fn unlock(&mut self, password: &str, lookup: &StoreLookup) -> (r: Result<bool, EngineError>)
        ensures
            final(self).unlocked() == Self::unlock_outcome(
                old(self).unlocked(),
                password@,
                *lookup,
            ).1,
            match Self::unlock_outcome(old(self).unlocked(), password@, *lookup).0 {
                Ok(b) => r == Ok::<bool, EngineError>(b),
                Err(m) => r is Err && r->Err_0.is(ErrorKind::Internal, m),
            },
    {
        match lookup {
            StoreLookup::Found(hash) => match argon2_verify(password, hash.as_str()) {
                Ok(true) => {
                    self.is_unlocked = true;
                    Ok(true)
                },
                Ok(false) => Ok(false),
                Err(m) => {
                    let text = concat2("Invalid stored hash: ", m.as_str());
                    Err(EngineError::internal(text.as_str()))
                },
            },
            StoreLookup::Missing(m) => {
                let text = concat2("No master password set: ", m.as_str());
                Err(EngineError::internal(text.as_str()))
            },
            StoreLookup::Failed(m) => {
                let text = concat2("No master password set: ", m.as_str());
                Err(EngineError::internal(text.as_str()))
            },
            StoreLookup::Unavailable(m) => {
                let text = concat2("Keyring error: ", m.as_str());
                Err(EngineError::internal(text.as_str()))
            },
        }
    }

    /// Closes the vault.
    pub fn lock(&mut self)
        ensures
            !final(self).unlocked(),
    {
        self.is_unlocked = false;
    }

    /// Whether the vault is closed.
    pub fn is_locked(&self) -> (b: bool)
        ensures
            b == !self.unlocked(),
    {
        !self.is_unlocked
    }

    /// Whether the vault is open.
    pub fn is_unlocked(&self) -> (b: bool)
        ensures
            b == self.unlocked(),
    {
        self.is_unlocked
    }

    /// Checks the current password before the master password is removed.
    /// A wrong password is an authentication failure. Where the password is
    /// right the vault is open afterwards, and the caller may delete the
    /// stored hash.
    pub fn remove_master_password(&mut self, password: &str, lookup: &StoreLookup) -> (r: Result<
        (),
        EngineError,
    >)
        ensures
            final(self).unlocked() == Self::unlock_outcome(
                old(self).unlocked(),
                password@,
                *lookup,
            ).1,
            match Self::unlock_outcome(old(self).unlocked(), password@, *lookup).0 {
                Ok(true) => r is Ok,
                Ok(false) => r is Err && r->Err_0.is(ErrorKind::AuthFailed, "Invalid password"@),
                Err(m) => r is Err && r->Err_0.is(ErrorKind::Internal, m),
            },
    {
        match self.unlock(password, lookup) {
            Ok(true) => Ok(()),
            Ok(false) => Err(EngineError::auth_failed("Invalid password")),
            Err(e) => Err(e),
        }
    }

    /// Ends the removal of the master password, given how deleting its
    /// hash went. Without a master password the vault is always open.
    pub fn finish_remove_master_password(&mut self, deleted: Result<(), String>) -> (r: Result<
        (),
        EngineError,
    >)
        ensures
            match deleted {
                Ok(_) => r is Ok && final(self).unlocked(),
                Err(m) => r is Err && r->Err_0.is(ErrorKind::Internal, "Failed to delete: "@ + m@)
                    && final(self).unlocked() == old(self).unlocked(),
            },
    {
        match deleted {
            Ok(_) => {
                self.is_unlocked = true;
                Ok(())
            },
            Err(m) => {
                let text = concat2("Failed to delete: ", m.as_str());
                Err(EngineError::internal(text.as_str()))
            },
        }
    }

    /// Opens the vault where no master password is set, given the lookup
    /// of its hash. A failing store leaves the vault as it was.
    pub fn auto_unlock_if_no_password(&mut self, lookup: &StoreLookup) -> (r: Result<
        (),
        EngineError,
    >)
        ensures
            match *lookup {
                StoreLookup::Found(_) => r is Ok && final(self).unlocked() == old(self).unlocked(),
                StoreLookup::Missing(_) => r is Ok && final(self).unlocked(),
                StoreLookup::Failed(m) => r is Err && r->Err_0.is(
                    ErrorKind::Internal,
                    "Keyring error: "@ + m@,
                ) && final(self).unlocked() == old(self).unlocked(),
                StoreLookup::Unavailable(m) => r is Err && r->Err_0.is(
                    ErrorKind::Internal,
                    "Keyring error: "@ + m@,
                ) && final(self).unlocked() == old(self).unlocked(),
            },
    {
        match Self::has_master_password(lookup) {
            Ok(present) => {
                if !present {
                    self.is_unlocked = true;
                }
                Ok(())
            },
            Err(e) => Err(e),
        }
    }
}

impl Default for VaultLock {
    fn default() -> (l: Self)
        ensures
            !l.unlocked(),
    {
        VaultLock::new()
    }
}

/// A vault that was locked opens with the password whose hash is stored,
/// and with no password that the hash does not verify.
pub proof fn lemma_unlock_needs_password(password: Seq<char>, hash: String)
    ensures
        VaultLock::unlock_outcome(false, password, StoreLookup::Found(hash)).1 <==> argon2_check(
            password,
            hash@,
        ) == Ok::<bool, Seq<char>>(true),
{
}

} // verus!

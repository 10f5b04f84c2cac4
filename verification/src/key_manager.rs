//! One string secret under a `(system, key)` identity.

use crate::error::KeyError;
use crate::override_source::{OverrideSource, OverrideView};
use crate::store::{erase, fetch, save, StoreFault};
use crate::text::{trim, trimmed};
use vstd::prelude::*;

verus! {

/// What the user is told before a secret that could not be read is asked for.
pub const NOT_FOUND_NOTICE: &'static str = "The key was not found.";

/// How a read that falls back on the user came out.
#[derive(Debug, PartialEq, Eq)]
pub enum Lookup<T, A> {
    /// The secret was read.
    Found(T),
    /// The secret could not be read. The caller shows `notice`, asks the
    /// user as `request` says, and hands the input to `request_key`.
    Ask { notice: String, request: A },
}

/// The outcome of a read that falls back on the user, as contracts see it.
pub enum LookupView<T, A> {
    Found(T),
    Ask { notice: Seq<char>, request: A },
}

/// Manages the secret that the credential store holds under
/// `(system_name, key_name)`. `key_value` is the secret as this manager last
/// read or wrote it; it is never read back in place of the store.
pub struct KeyManager {
    pub system_name: String,
    pub key_name: String,
    pub key_value: Option<String>,
    pub override_source: OverrideSource,
}

/// A manager as contracts see it.
pub struct KeyManagerView {
    pub system_name: Seq<char>,
    pub key_name: Seq<char>,
    pub key_value: Option<Seq<char>>,
    pub override_source: OverrideView,
}

/// The text that asks for the secret called `key_name`.
pub open spec fn key_prompt(key_name: Seq<char>) -> Seq<char> {
    "Please enter the value for key "@ + key_name + ":"@
}

/// The outcome of an operation that gives a secret, the secret by its view.
pub open spec fn secret_view(r: Result<String, KeyError>) -> Result<Seq<char>, KeyError> {
    match r {
        Ok(secret) => Ok(secret@),
        Err(e) => Err(e),
    }
}

/// A store's answer to a read, the secret by its view.
pub open spec fn reply_view(reply: Result<String, StoreFault>) -> Result<Seq<char>, StoreFault> {
    match reply {
        Ok(secret) => Ok(secret@),
        Err(fault) => Err(fault),
    }
}

/// The outcome of a read that falls back on the user, texts by their views.
pub open spec fn lookup_view(l: Lookup<String, String>) -> LookupView<Seq<char>, Seq<char>> {
    match l {
        Lookup::Found(secret) => LookupView::Found(secret@),
        Lookup::Ask { notice, request } => LookupView::Ask { notice: notice@, request: request@ },
    }
}

impl KeyManagerView {
    /// The identity under which the credential store holds the secret.
    pub open spec fn identity(self) -> (Seq<char>, Seq<char>) {
        (self.system_name, self.key_name)
    }

    /// What the override source holds for this manager's key.
    pub open spec fn override_value(self) -> Option<Seq<char>> {
        self.override_source.lookup(self.key_name)
    }

    /// This manager with `secret` as the last known value.
    pub open spec fn remembering(self, secret: Seq<char>) -> KeyManagerView {
        KeyManagerView { key_value: Some(secret), ..self }
    }

    /// This manager with no last known value.
    pub open spec fn forgetting(self) -> KeyManagerView {
        KeyManagerView { key_value: None, ..self }
    }

    /// A read, where the store would answer `reply`. A value of the override
    /// source wins and the store's answer does not count; else the store's
    /// secret is returned, and its faults are told apart: no entry is
    /// `NotFound`, any other is `StoreError`. A secret that is returned is
    /// remembered; a failure leaves the manager as it was.
    pub open spec fn read(self, reply: Result<Seq<char>, StoreFault>) -> (
        KeyManagerView,
        Result<Seq<char>, KeyError>,
    ) {
        match self.override_value() {
            Some(secret) => (self.remembering(secret), Ok(secret)),
            None => match reply {
                Ok(secret) => (self.remembering(secret), Ok(secret)),
                Err(StoreFault::NoEntry) => (self, Err(KeyError::NotFound)),
                Err(StoreFault::Platform) => (self, Err(KeyError::StoreError)),
            },
        }
    }

    /// A write of `secret`, where the store answers `reply`. On success the
    /// secret is remembered; every fault is a `StoreError` and leaves the
    /// manager as it was.
    pub open spec fn store(self, secret: Seq<char>, reply: Result<(), StoreFault>) -> (
        KeyManagerView,
        Result<(), KeyError>,
    ) {
        match reply {
            Ok(_) => (self.remembering(secret), Ok(())),
            Err(_) => (self, Err(KeyError::StoreError)),
        }
    }

    /// A deletion, where the store answers `reply`. On success nothing is
    /// remembered any more; every fault, the missing entry too, is a
    /// `StoreError` and leaves the manager as it was.
    pub open spec fn delete(self, reply: Result<(), StoreFault>) -> (
        KeyManagerView,
        Result<(), KeyError>,
    ) {
        match reply {
            Ok(_) => (self.forgetting(), Ok(())),
            Err(_) => (self, Err(KeyError::StoreError)),
        }
    }

    /// The user's `input` taken for the secret: it is trimmed and written,
    /// the store answering `reply`, and what was written is returned.
    pub open spec fn request(self, input: Seq<char>, reply: Result<(), StoreFault>) -> (
        KeyManagerView,
        Result<Seq<char>, KeyError>,
    ) {
        match self.store(trimmed(input), reply) {
            (next, Ok(_)) => (next, Ok(trimmed(input))),
            (next, Err(e)) => (next, Err(e)),
        }
    }

    /// A read that falls back on the user, where the store would answer
    /// `reply`: whatever the failure of the read, the user is to be told
    /// that the secret was not found and asked for it.
    pub open spec fn read_or_request(self, reply: Result<Seq<char>, StoreFault>) -> (
        KeyManagerView,
        LookupView<Seq<char>, Seq<char>>,
    ) {
        match self.read(reply) {
            (next, Ok(secret)) => (next, LookupView::Found(secret)),
            (next, Err(_)) => (
                next,
                LookupView::Ask { notice: NOT_FOUND_NOTICE@, request: key_prompt(self.key_name) },
            ),
        }
    }
}

impl View for KeyManager {
    type V = KeyManagerView;

    open spec fn view(&self) -> KeyManagerView {
        KeyManagerView {
            system_name: self.system_name@,
            key_name: self.key_name@,
            key_value: match self.key_value {
                Some(secret) => Some(secret@),
                None => None,
            },
            override_source: self.override_source@,
        }
    }
}

impl KeyManager {
    /// A manager for the secret under `(system_name, key_name)`, with nothing
    /// remembered and no override source.
    pub fn new(system_name: &str, key_name: &str) -> (r: KeyManager)
        ensures
            r@.system_name == system_name@,
            r@.key_name == key_name@,
            r@.key_value is None,
            !r@.override_source.enabled,
            r@.override_source.entries.len() == 0,
    {
        KeyManager {
            system_name: system_name.to_owned(),
            key_name: key_name.to_owned(),
            key_value: None,
            override_source: OverrideSource::disabled(),
        }
    }

    /// A manager that asks `override_source` before the credential store.
    pub fn with_override(system_name: &str, key_name: &str, override_source: OverrideSource) -> (r:
        KeyManager)
        ensures
            r@.system_name == system_name@,
            r@.key_name == key_name@,
            r@.key_value is None,
            r@.override_source == override_source@,
    {
        KeyManager {
            system_name: system_name.to_owned(),
            key_name: key_name.to_owned(),
            key_value: None,
            override_source,
        }
    }

    /// The text that asks the user for this secret.
    pub fn prompt(&self) -> (r: String)
        ensures
            r@ == key_prompt(self@.key_name),
    {
        let mut text = String::from_str("Please enter the value for key ");
        text.append(self.key_name.as_str());
        text.append(":");
        text
    }

    fn remember(&mut self, secret: String) -> (r: Result<String, KeyError>)
        ensures
            final(self)@ == old(self)@.remembering(secret@),
            secret_view(r) == Ok::<Seq<char>, KeyError>(secret@),
    {
        self.key_value = Some(secret.clone());
        Ok(secret)
    }

    fn settle_read(&mut self, reply: Result<String, StoreFault>) -> (r: Result<String, KeyError>)
        requires
            old(self)@.override_value() is None,
        ensures
            (final(self)@, secret_view(r)) == old(self)@.read(reply_view(reply)),
    {
        match reply {
            Ok(secret) => self.remember(secret),
            Err(StoreFault::NoEntry) => Err(KeyError::NotFound),
            Err(StoreFault::Platform) => Err(KeyError::StoreError),
        }
    }

    /// Reads the secret, where the credential store has answered `reply`.
    pub fn read_key_with(&mut self, reply: Result<String, StoreFault>) -> (r: Result<
        String,
        KeyError,
    >)
        ensures
            (final(self)@, secret_view(r)) == old(self)@.read(reply_view(reply)),
    {
        match self.override_source.lookup(self.key_name.as_str()) {
            Some(secret) => self.remember(secret),
            None => self.settle_read(reply),
        }
    }

    /// Reads the secret: from the override source if that holds it, and only
    /// otherwise from the credential store.
    pub fn read_key(&mut self) -> (r: Result<String, KeyError>)
        ensures
            old(self)@.override_value() matches Some(secret) ==> secret_view(r) == Ok::<
                Seq<char>,
                KeyError,
            >(secret),
            exists|reply: Result<Seq<char>, StoreFault>| #[trigger]
                old(self)@.read(reply) == (final(self)@, secret_view(r)),
    {
        match self.override_source.lookup(self.key_name.as_str()) {
            Some(secret) => {
                let r = self.remember(secret);
                assert(old(self)@.read(Err(StoreFault::NoEntry)) == (self@, secret_view(r)));
                r
            },
            None => {
                let reply = fetch(self.system_name.as_str(), self.key_name.as_str());
                let r = self.settle_read(reply);
                assert(old(self)@.read(reply_view(reply)) == (self@, secret_view(r)));
                r
            },
        }
    }

    /// Takes note of a write of `secret`, which the credential store has
    /// answered with `reply`.
    pub fn store_key_with(&mut self, secret: &str, reply: Result<(), StoreFault>) -> (r: Result<
        (),
        KeyError,
    >)
        ensures
            (final(self)@, r) == old(self)@.store(secret@, reply),
    {
        match reply {
            Ok(_) => {
                self.key_value = Some(secret.to_owned());
                Ok(())
            },
            Err(_) => Err(KeyError::StoreError),
        }
    }

    /// Writes `secret` to the credential store, over what it held.
    pub fn store_key(&mut self, secret: &str) -> (r: Result<(), KeyError>)
        ensures
            exists|reply: Result<(), StoreFault>| #[trigger]
                old(self)@.store(secret@, reply) == (final(self)@, r),
    {
        let reply = save(self.system_name.as_str(), self.key_name.as_str(), secret);
        let r = self.store_key_with(secret, reply);
        assert(old(self)@.store(secret@, reply) == (self@, r));
        r
    }

    /// Takes note of a deletion, which the credential store has answered
    /// with `reply`.
    pub fn delete_key_with(&mut self, reply: Result<(), StoreFault>) -> (r: Result<(), KeyError>)
        ensures
            (final(self)@, r) == old(self)@.delete(reply),
    {
        match reply {
            Ok(_) => {
                self.key_value = None;
                Ok(())
            },
            Err(_) => Err(KeyError::StoreError),
        }
    }

    /// Deletes the secret from the credential store.
    pub fn delete_key(&mut self) -> (r: Result<(), KeyError>)
        ensures
            exists|reply: Result<(), StoreFault>| #[trigger]
                old(self)@.delete(reply) == (final(self)@, r),
    {
        let reply = erase(self.system_name.as_str(), self.key_name.as_str());
        let r = self.delete_key_with(reply);
        assert(old(self)@.delete(reply) == (self@, r));
        r
    }

    /// Takes the line `input`, which the user gave at the prompt, for the
    /// secret, where the credential store has answered the write with `reply`.
    pub fn request_key_with(&mut self, input: &str, reply: Result<(), StoreFault>) -> (r: Result<
        String,
        KeyError,
    >)
        ensures
            (final(self)@, secret_view(r)) == old(self)@.request(input@, reply),
    {
        let secret = trim(input);
        match self.store_key_with(secret, reply) {
            Ok(_) => Ok(secret.to_owned()),
            Err(e) => Err(e),
        }
    }

    /// Takes the line `input`, which the user gave at the prompt, for the
    /// secret: trims it, writes it to the credential store and returns it.
    pub fn request_key(&mut self, input: &str) -> (r: Result<String, KeyError>)
        ensures
            exists|reply: Result<(), StoreFault>| #[trigger]
                old(self)@.request(input@, reply) == (final(self)@, secret_view(r)),
    {
        let secret = trim(input);
        let reply = save(self.system_name.as_str(), self.key_name.as_str(), secret);
        let r = self.request_key_with(input, reply);
        assert(old(self)@.request(input@, reply) == (self@, secret_view(r)));
        r
    }

    /// Reads the secret, where the credential store has answered `reply`,
    /// and says what to ask the user if it could not be read.
    pub fn read_or_request_key_with(&mut self, reply: Result<String, StoreFault>) -> (r: Lookup<
        String,
        String,
    >)
        ensures
            (final(self)@, lookup_view(r)) == old(self)@.read_or_request(reply_view(reply)),
    {
        match self.read_key_with(reply) {
            Ok(secret) => Lookup::Found(secret),
            Err(_) => Lookup::Ask {
                notice: String::from_str(NOT_FOUND_NOTICE),
                request: self.prompt(),
            },
        }
    }

    /// Reads the secret and, if it cannot be read for whatever reason, says
    /// what to ask the user.
    pub fn read_or_request_key(&mut self) -> (r: Lookup<String, String>)
        ensures
            exists|reply: Result<Seq<char>, StoreFault>| #[trigger]
                old(self)@.read_or_request(reply) == (final(self)@, lookup_view(r)),
    {
        let attempt = self.read_key();
        let ghost reply = choose|reply: Result<Seq<char>, StoreFault>| #[trigger]
            old(self)@.read(reply) == (self@, secret_view(attempt));
        let r = match attempt {
            Ok(secret) => Lookup::Found(secret),
            Err(_) => Lookup::Ask {
                notice: String::from_str(NOT_FOUND_NOTICE),
                request: self.prompt(),
            },
        };
        assert(old(self)@.read_or_request(reply) == (self@, lookup_view(r)));
        r
    }
}

} // verus!

//! One record secret under a `(system, key)` identity, kept in the
//! credential store as text.

use crate::codec::{decode, decoded, encode, encoded};
use crate::elicitation::{Elicitation, ElicitationView};
use crate::error::KeyError;
use crate::key_manager::{
    reply_view, secret_view, KeyManager, KeyManagerView, Lookup, LookupView, NOT_FOUND_NOTICE,
};
use crate::record::{same_shape, FieldView, Primitive, Record};
use crate::store::StoreFault;
use vstd::prelude::*;

verus! {

/// Manages a record of the shape of `template` through `key_manager`, which
/// holds the record's text.
pub struct StructKeyManager {
    pub key_manager: KeyManager,
    pub template: Record,
}

/// A manager as contracts see it.
pub struct StructKeyManagerView {
    pub key_manager: KeyManagerView,
    pub template: Seq<FieldView>,
}

/// The outcome of an operation that gives a record, the record by its view.
pub open spec fn record_view(r: Result<Record, KeyError>) -> Result<Seq<FieldView>, KeyError> {
    match r {
        Ok(record) => Ok(record@),
        Err(e) => Err(e),
    }
}

/// The outcome of a read that falls back on the user, by its views.
pub open spec fn record_lookup_view(l: Lookup<Record, Elicitation>) -> LookupView<
    Seq<FieldView>,
    ElicitationView,
> {
    match l {
        Lookup::Found(record) => LookupView::Found(record@),
        Lookup::Ask { notice, request } => LookupView::Ask { notice: notice@, request: request@ },
    }
}

impl StructKeyManagerView {
    /// This manager with `key_manager` in place of its own.
    pub open spec fn over(self, key_manager: KeyManagerView) -> StructKeyManagerView {
        StructKeyManagerView { key_manager, ..self }
    }

    /// A read, where the store would answer `reply`: the text is read as the
    /// scalar manager reads it and then decoded against the template. Text
    /// that does not decode is a `DecodeError`, apart from every failure to
    /// read.
    pub open spec fn read(self, reply: Result<Seq<char>, StoreFault>) -> (
        StructKeyManagerView,
        Result<Seq<FieldView>, KeyError>,
    ) {
        match self.key_manager.read(reply) {
            (next, Ok(text)) => (self.over(next), decoded(text, self.template)),
            (next, Err(e)) => (self.over(next), Err(e)),
        }
    }

    /// A write of `value`, where the store answers `reply`. A value that is
    /// not of the template's shape is refused with `DecodeError` and one
    /// that cannot be encoded with `StoreError`, in both cases before the
    /// store is asked; else the scalar manager writes the encoded text.
    pub open spec fn store(self, value: Seq<FieldView>, reply: Result<(), StoreFault>) -> (
        StructKeyManagerView,
        Result<(), KeyError>,
    ) {
        if !same_shape(value, self.template) {
            (self, Err(KeyError::DecodeError))
        } else {
            match encoded(value) {
                Ok(text) => {
                    let (next, outcome) = self.key_manager.store(text, reply);
                    (self.over(next), outcome)
                },
                Err(e) => (self, Err(e)),
            }
        }
    }

    /// A deletion, where the store answers `reply`.
    pub open spec fn delete(self, reply: Result<(), StoreFault>) -> (
        StructKeyManagerView,
        Result<(), KeyError>,
    ) {
        let (next, outcome) = self.key_manager.delete(reply);
        (self.over(next), outcome)
    }

    /// The user's answers taken for the record, where the store answers the
    /// write with `reply`. Answers that are not complete are an `InputError`;
    /// else the record that they make is written, and returned if the write
    /// succeeded.
    pub open spec fn request(self, answers: ElicitationView, reply: Result<(), StoreFault>) -> (
        StructKeyManagerView,
        Result<Seq<FieldView>, KeyError>,
    ) {
        if !answers.is_complete() {
            (self, Err(KeyError::InputError))
        } else {
            match self.store(answers.record(), reply) {
                (next, Ok(_)) => (next, Ok(answers.record())),
                (next, Err(e)) => (next, Err(e)),
            }
        }
    }

    /// A read that falls back on the user, where the store would answer
    /// `reply`: whatever the failure of the read, text that does not decode
    /// too, the user is to be told that the record was not found and asked
    /// for every field of the template.
    pub open spec fn read_or_request(self, reply: Result<Seq<char>, StoreFault>) -> (
        StructKeyManagerView,
        LookupView<Seq<FieldView>, ElicitationView>,
    ) {
        match self.read(reply) {
            (next, Ok(record)) => (next, LookupView::Found(record)),
            (next, Err(_)) => (
                next,
                LookupView::Ask {
                    notice: NOT_FOUND_NOTICE@,
                    request: ElicitationView {
                        template: self.template,
                        answers: Seq::<Primitive>::empty(),
                    },
                },
            ),
        }
    }
}

impl View for StructKeyManager {
    type V = StructKeyManagerView;

    open spec fn view(&self) -> StructKeyManagerView {
        StructKeyManagerView { key_manager: self.key_manager@, template: self.template@ }
    }
}

impl StructKeyManager {
    /// A manager for the record under `(system_name, key_name)`. `template`
    /// is the record's default: its field names, their order and the
    /// primitive types of its values are those of every record that the
    /// manager reads, asks for or writes.
    pub fn new(system_name: &str, key_name: &str, template: Record) -> (r: StructKeyManager)
        ensures
            r@.key_manager.system_name == system_name@,
            r@.key_manager.key_name == key_name@,
            r@.key_manager.key_value is None,
            !r@.key_manager.override_source.enabled,
            r@.key_manager.override_source.entries.len() == 0,
            r@.template == template@,
    {
        StructKeyManager { key_manager: KeyManager::new(system_name, key_name), template }
    }

    /// Reads the record, where the credential store has answered `reply`.
    pub fn read_key_with(&mut self, reply: Result<String, StoreFault>) -> (r: Result<
        Record,
        KeyError,
    >)
        ensures
            (final(self)@, record_view(r)) == old(self)@.read(reply_view(reply)),
    {
        match self.key_manager.read_key_with(reply) {
            Ok(text) => decode(text.as_str(), &self.template),
            Err(e) => Err(e),
        }
    }

    /// Reads the record: its text as the scalar manager reads it, decoded
    /// against the template.
    pub fn read_key(&mut self) -> (r: Result<Record, KeyError>)
        ensures
            exists|reply: Result<Seq<char>, StoreFault>| #[trigger]
                old(self)@.read(reply) == (final(self)@, record_view(r)),
    {
        let text = self.key_manager.read_key();
        let ghost reply = choose|reply: Result<Seq<char>, StoreFault>| #[trigger]
            old(self)@.key_manager.read(reply) == (self@.key_manager, secret_view(text));
        let r = match text {
            Ok(text) => decode(text.as_str(), &self.template),
            Err(e) => Err(e),
        };
        assert(old(self)@.read(reply) == (self@, record_view(r)));
        r
    }

    /// Takes note of a write of `value`, which the credential store has
    /// answered with `reply`.
    pub fn store_key_with(&mut self, value: &Record, reply: Result<(), StoreFault>) -> (r: Result<
        (),
        KeyError,
    >)
        ensures
            (final(self)@, r) == old(self)@.store(value@, reply),
    {
        if !value.same_shape(&self.template) {
            return Err(KeyError::DecodeError);
        }
        match encode(value) {
            Ok(text) => self.key_manager.store_key_with(text.as_str(), reply),
            Err(e) => Err(e),
        }
    }

    /// Writes `value`, encoded, to the credential store, over what it held.
    pub fn store_key(&mut self, value: &Record) -> (r: Result<(), KeyError>)
        ensures
            exists|reply: Result<(), StoreFault>| #[trigger]
                old(self)@.store(value@, reply) == (final(self)@, r),
    {
        if !value.same_shape(&self.template) {
            assert(old(self)@.store(value@, Ok(())) == (self@, Err::<(), KeyError>(
                KeyError::DecodeError,
            )));
            return Err(KeyError::DecodeError);
        }
        match encode(value) {
            Ok(text) => {
                let r = self.key_manager.store_key(text.as_str());
                let ghost reply = choose|reply: Result<(), StoreFault>| #[trigger]
                    old(self)@.key_manager.store(text@, reply) == (self@.key_manager, r);
                assert(old(self)@.store(value@, reply) == (self@, r));
                r
            },
            Err(e) => {
                assert(old(self)@.store(value@, Ok(())) == (self@, Err::<(), KeyError>(e)));
                Err(e)
            },
        }
    }

    /// Takes note of a deletion, which the credential store has answered
    /// with `reply`.
    pub fn delete_key_with(&mut self, reply: Result<(), StoreFault>) -> (r: Result<(), KeyError>)
        ensures
            (final(self)@, r) == old(self)@.delete(reply),
    {
        self.key_manager.delete_key_with(reply)
    }

    /// Deletes the record from the credential store.
    pub fn delete_key(&mut self) -> (r: Result<(), KeyError>)
        ensures
            exists|reply: Result<(), StoreFault>| #[trigger]
                old(self)@.delete(reply) == (final(self)@, r),
    {
        let r = self.key_manager.delete_key();
        let ghost reply = choose|reply: Result<(), StoreFault>| #[trigger]
            old(self)@.key_manager.delete(reply) == (self@.key_manager, r);
        assert(old(self)@.delete(reply) == (self@, r));
        r
    }

    /// Takes the user's answers for the record, where the credential store
    /// has answered the write with `reply`.
    pub fn request_key_with(&mut self, answers: &Elicitation, reply: Result<(), StoreFault>) -> (r:
        Result<Record, KeyError>)
        ensures
            (final(self)@, record_view(r)) == old(self)@.request(answers@, reply),
    {
        match answers.record() {
            Some(record) => match self.store_key_with(&record, reply) {
                Ok(_) => Ok(record),
                Err(e) => Err(e),
            },
            None => Err(KeyError::InputError),
        }
    }

    /// Takes the user's answers for the record: writes the record that they
    /// make to the credential store and returns it.
    pub fn request_key(&mut self, answers: &Elicitation) -> (r: Result<Record, KeyError>)
        ensures
            exists|reply: Result<(), StoreFault>| #[trigger]
                old(self)@.request(answers@, reply) == (final(self)@, record_view(r)),
    {
        match answers.record() {
            Some(record) => {
                let written = self.store_key(&record);
                let ghost reply = choose|reply: Result<(), StoreFault>| #[trigger]
                    old(self)@.store(record@, reply) == (self@, written);
                let r = match written {
                    Ok(_) => Ok(record),
                    Err(e) => Err(e),
                };
                assert(old(self)@.request(answers@, reply) == (self@, record_view(r)));
                r
            },
            None => {
                assert(old(self)@.request(answers@, Ok(())) == (self@, Err::<
                    Seq<FieldView>,
                    KeyError,
                >(KeyError::InputError)));
                Err(KeyError::InputError)
            },
        }
    }

    /// Reads the record, where the credential store has answered `reply`,
    /// and starts asking the user for it if it could not be read.
    pub fn read_or_request_key_with(&mut self, reply: Result<String, StoreFault>) -> (r: Lookup<
        Record,
        Elicitation,
    >)
        ensures
            (final(self)@, record_lookup_view(r)) == old(self)@.read_or_request(reply_view(reply)),
    {
        match self.read_key_with(reply) {
            Ok(record) => Lookup::Found(record),
            Err(_) => Lookup::Ask {
                notice: String::from_str(NOT_FOUND_NOTICE),
                request: Elicitation::new(&self.template),
            },
        }
    }

    /// Reads the record and, if it cannot be read for whatever reason,
    /// starts asking the user for it.
    pub fn read_or_request_key(&mut self) -> (r: Lookup<Record, Elicitation>)
        ensures
            exists|reply: Result<Seq<char>, StoreFault>| #[trigger]
                old(self)@.read_or_request(reply) == (final(self)@, record_lookup_view(r)),
    {
        let attempt = self.read_key();
        let ghost reply = choose|reply: Result<Seq<char>, StoreFault>| #[trigger]
            old(self)@.read(reply) == (self@, record_view(attempt));
        let r = match attempt {
            Ok(record) => Lookup::Found(record),
            Err(_) => Lookup::Ask {
                notice: String::from_str(NOT_FOUND_NOTICE),
                request: Elicitation::new(&self.template),
            },
        };
        assert(old(self)@.read_or_request(reply) == (self@, record_lookup_view(r)));
        r
    }
}

} // verus!

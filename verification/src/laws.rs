//! What holds of the managers over a credential store that keeps what it is
//! given.
//!
//! The credential store itself is outside this library, and no function here
//! says what it answers. A [`Vault`] is the store as its interface describes
//! it: one secret at most under each identity, a write replaces, a deletion
//! removes, and a deletion of nothing fails. The laws below follow the
//! managers through a sequence of operations in which every answer is the
//! vault's.

use crate::codec::{
    decoded, encoded, fitted, json_members, json_text, member_named, round_trips, shaped,
    JsonValueView, MemberView,
};
use crate::elicitation::{coerced, ElicitationView};
use crate::error::KeyError;
use crate::key_manager::{key_prompt, KeyManagerView, LookupView, NOT_FOUND_NOTICE};
use crate::record::{same_shape, FieldKind, FieldView, Primitive};
use crate::store::StoreFault;
use crate::struct_key_manager::StructKeyManagerView;
use crate::text::trimmed;
use vstd::prelude::*;

verus! {

/// A credential store that keeps what it is given.
pub struct Vault {
    pub secrets: Map<(Seq<char>, Seq<char>), Seq<char>>,
}

impl Vault {
    /// The answer to a read.
    pub open spec fn get(self, identity: (Seq<char>, Seq<char>)) -> Result<Seq<char>, StoreFault> {
        if self.secrets.contains_key(identity) {
            Ok(self.secrets[identity])
        } else {
            Err(StoreFault::NoEntry)
        }
    }

    /// The vault after a write, which it never refuses.
    pub open spec fn set(self, identity: (Seq<char>, Seq<char>), secret: Seq<char>) -> Vault {
        Vault { secrets: self.secrets.insert(identity, secret) }
    }

    /// The vault after a deletion, and its answer.
    pub open spec fn delete(self, identity: (Seq<char>, Seq<char>)) -> (
        Vault,
        Result<(), StoreFault>,
    ) {
        if self.secrets.contains_key(identity) {
            (Vault { secrets: self.secrets.remove(identity) }, Ok(()))
        } else {
            (self, Err(StoreFault::NoEntry))
        }
    }
}

/// A read by `m` over `vault`.
pub open spec fn read_in(m: KeyManagerView, vault: Vault) -> (
    KeyManagerView,
    Result<Seq<char>, KeyError>,
) {
    m.read(vault.get(m.identity()))
}

/// A write by `m` over `vault`.
pub open spec fn store_in(m: KeyManagerView, vault: Vault, secret: Seq<char>) -> (
    KeyManagerView,
    Vault,
    Result<(), KeyError>,
) {
    let (next, outcome) = m.store(secret, Ok(()));
    (next, vault.set(m.identity(), secret), outcome)
}

/// A deletion by `m` over `vault`.
pub open spec fn delete_in(m: KeyManagerView, vault: Vault) -> (
    KeyManagerView,
    Vault,
    Result<(), KeyError>,
) {
    let (left, reply) = vault.delete(m.identity());
    let (next, outcome) = m.delete(reply);
    (next, left, outcome)
}

/// The user's `input` taken for the secret by `m` over `vault`.
pub open spec fn request_in(m: KeyManagerView, vault: Vault, input: Seq<char>) -> (
    KeyManagerView,
    Vault,
    Result<Seq<char>, KeyError>,
) {
    let (next, outcome) = m.request(input, Ok(()));
    (next, vault.set(m.identity(), trimmed(input)), outcome)
}

/// A read that falls back on the user, by `m` over `vault`.
pub open spec fn read_or_request_in(m: KeyManagerView, vault: Vault) -> (
    KeyManagerView,
    LookupView<Seq<char>, Seq<char>>,
) {
    m.read_or_request(vault.get(m.identity()))
}

/// A secret that was written is the secret that the next read returns,
/// whatever the store held before, unless the override source holds a value
/// for the key.
pub proof fn store_then_read(m: KeyManagerView, vault: Vault, secret: Seq<char>)
    requires
        m.override_value() is None,
    ensures
        store_in(m, vault, secret).2 is Ok,
        read_in(store_in(m, vault, secret).0, store_in(m, vault, secret).1).1 == Ok::<
            Seq<char>,
            KeyError,
        >(secret),
{
}

/// Of two writes the second is the one that the next read returns, unless
/// the override source holds a value for the key.
pub proof fn second_store_wins(
    m: KeyManagerView,
    vault: Vault,
    first: Seq<char>,
    second: Seq<char>,
)
    requires
        m.override_value() is None,
    ensures
        ({
            let (m1, vault1, _) = store_in(m, vault, first);
            let (m2, vault2, _) = store_in(m1, vault1, second);
            read_in(m2, vault2).1 == Ok::<Seq<char>, KeyError>(second)
        }),
{
}

/// After a deletion, whether it succeeded or found nothing to delete, a
/// read finds nothing, unless the override source holds a value for the key.
pub proof fn delete_then_read(m: KeyManagerView, vault: Vault)
    requires
        m.override_value() is None,
    ensures
        ({
            let (m1, vault1, _) = delete_in(m, vault);
            read_in(m1, vault1).1 == Err::<Seq<char>, KeyError>(KeyError::NotFound)
        }),
{
}

/// Deleting a secret that the store does not hold is a `StoreError`, and
/// changes neither the store nor the manager; deleting one that it holds
/// succeeds.
pub proof fn delete_tells_absence(m: KeyManagerView, vault: Vault)
    ensures
        !vault.secrets.contains_key(m.identity()) ==> delete_in(m, vault) == (
            m,
            vault,
            Err::<(), KeyError>(KeyError::StoreError),
        ),
        vault.secrets.contains_key(m.identity()) ==> delete_in(m, vault).2 is Ok,
{
}

/// Where neither the override source nor the store holds the secret, a read
/// that falls back on the user asks for it; the input, trimmed, is then
/// returned and stored, so that the next read, with or without fallback,
/// returns it and asks nothing.
pub proof fn request_is_returned_and_stored(m: KeyManagerView, vault: Vault, input: Seq<char>)
    requires
        m.override_value() is None,
        !vault.secrets.contains_key(m.identity()),
    ensures
        ({
            let (m1, asked) = read_or_request_in(m, vault);
            let (m2, vault2, given) = request_in(m1, vault, input);
            &&& asked == (LookupView::<Seq<char>, Seq<char>>::Ask {
                notice: NOT_FOUND_NOTICE@,
                request: key_prompt(m.key_name),
            })
            &&& given == Ok::<Seq<char>, KeyError>(trimmed(input))
            &&& read_in(m2, vault2).1 == given
            &&& read_or_request_in(m2, vault2).1 == LookupView::<Seq<char>, Seq<char>>::Found(
                trimmed(input),
            )
        }),
{
}

/// A value that the override source holds for the key is what a read
/// returns, whatever the store would answer.
pub proof fn override_takes_precedence(
    m: KeyManagerView,
    secret: Seq<char>,
    reply: Result<Seq<char>, StoreFault>,
)
    requires
        m.override_value() == Some(secret),
    ensures
        m.read(reply) == (m.remembering(secret), Ok::<Seq<char>, KeyError>(secret)),
{
}

/// Two managers with one identity manage one secret: what the first wrote,
/// the second reads, unless its override source holds a value for the key.
pub proof fn same_identity_same_secret(
    writer: KeyManagerView,
    reader: KeyManagerView,
    vault: Vault,
    secret: Seq<char>,
)
    requires
        writer.identity() == reader.identity(),
        reader.override_value() is None,
    ensures
        read_in(reader, store_in(writer, vault, secret).1).1 == Ok::<Seq<char>, KeyError>(secret),
{
}

/// What a manager remembers has no part in what a read returns: every read
/// goes by the override source and the store.
pub proof fn remembered_value_is_not_read(
    m: KeyManagerView,
    remembered: Option<Seq<char>>,
    reply: Result<Seq<char>, StoreFault>,
)
    ensures
        (KeyManagerView { key_value: remembered, ..m }).read(reply).1 == m.read(reply).1,
{
}

/// No operation changes the identity of a manager or its override source.
pub proof fn identity_is_kept(
    m: KeyManagerView,
    secret: Seq<char>,
    read: Result<Seq<char>, StoreFault>,
    written: Result<(), StoreFault>,
)
    ensures
        m.read(read).0 == (KeyManagerView { key_value: m.read(read).0.key_value, ..m }),
        m.store(secret, written).0 == (KeyManagerView {
            key_value: m.store(secret, written).0.key_value,
            ..m
        }),
        m.delete(written).0 == (KeyManagerView { key_value: m.delete(written).0.key_value, ..m }),
        m.request(secret, written).0 == (KeyManagerView {
            key_value: m.request(secret, written).0.key_value,
            ..m
        }),
        m.read_or_request(read).0 == m.read(read).0,
{
}

/// The store holds one secret at most under an identity, and what a manager
/// writes or deletes is the secret under its own identity: the answers of
/// the store for every other identity stay as they were.
pub proof fn other_identities_are_left_alone(
    m: KeyManagerView,
    vault: Vault,
    secret: Seq<char>,
    other: (Seq<char>, Seq<char>),
)
    requires
        other != m.identity(),
    ensures
        store_in(m, vault, secret).1.get(other) == vault.get(other),
        delete_in(m, vault).1.get(other) == vault.get(other),
        request_in(m, vault, secret).1.get(other) == vault.get(other),
{
}

/// Whether `members` hold every one of `fields` under its name.
pub open spec fn holds(members: Seq<MemberView>, fields: Seq<FieldView>) -> bool {
    forall|i: int|
        0 <= i < fields.len() ==> member_named(members, (#[trigger] fields[i]).name) == Some(
            MemberView { name: fields[i].name, value: JsonValueView::Primitive(fields[i].value) },
        )
}

/// A record of the template's shape decodes from its own text to itself,
/// provided that `serde_json` writes a text for it and reads that text as an
/// object which has each field of the record as a member. That proviso is
/// about `serde_json` alone and is not proved here.
pub proof fn decode_inverts_encode(value: Seq<FieldView>, template: Seq<FieldView>)
    requires
        same_shape(value, template),
        json_text(value) matches Some(text) && json_members(text) matches Some(members) && holds(
            members,
            value,
        ),
    ensures
        round_trips(value, template),
{
    let members = json_members(json_text(value)->0)->0;
    assert forall|i: int| 0 <= i < template.len() implies fitted(members, #[trigger] template[i])
        == Some(value[i]) by {
        assert(member_named(members, value[i].name) == Some(
            MemberView { name: value[i].name, value: JsonValueView::Primitive(value[i].value) },
        ));
    }
    assert(shaped(members, template)->0 =~= value);
}

/// What decodes against a template has the template's shape.
pub proof fn decoded_has_shape(text: Seq<char>, template: Seq<FieldView>)
    ensures
        decoded(text, template) matches Ok(value) ==> same_shape(value, template),
{
}

/// A read by `m` over `vault`.
pub open spec fn read_record_in(m: StructKeyManagerView, vault: Vault) -> (
    StructKeyManagerView,
    Result<Seq<FieldView>, KeyError>,
) {
    m.read(vault.get(m.key_manager.identity()))
}

/// A write by `m` over `vault`. The vault is written to only if the value
/// has the template's shape and a text.
pub open spec fn store_record_in(m: StructKeyManagerView, vault: Vault, value: Seq<FieldView>) -> (
    StructKeyManagerView,
    Vault,
    Result<(), KeyError>,
) {
    let (next, outcome) = m.store(value, Ok(()));
    let kept = match encoded(value) {
        Ok(text) => if same_shape(value, m.template) {
            vault.set(m.key_manager.identity(), text)
        } else {
            vault
        },
        Err(_) => vault,
    };
    (next, kept, outcome)
}

/// A deletion by `m` over `vault`.
pub open spec fn delete_record_in(m: StructKeyManagerView, vault: Vault) -> (
    StructKeyManagerView,
    Vault,
    Result<(), KeyError>,
) {
    let (left, reply) = vault.delete(m.key_manager.identity());
    let (next, outcome) = m.delete(reply);
    (next, left, outcome)
}

/// The user's answers taken for the record by `m` over `vault`.
pub open spec fn request_record_in(
    m: StructKeyManagerView,
    vault: Vault,
    answers: ElicitationView,
) -> (StructKeyManagerView, Vault, Result<Seq<FieldView>, KeyError>) {
    let (next, outcome) = m.request(answers, Ok(()));
    let kept = if answers.is_complete() {
        store_record_in(m, vault, answers.record()).1
    } else {
        vault
    };
    (next, kept, outcome)
}

/// A read that falls back on the user, by `m` over `vault`.
pub open spec fn read_or_request_record_in(m: StructKeyManagerView, vault: Vault) -> (
    StructKeyManagerView,
    LookupView<Seq<FieldView>, ElicitationView>,
) {
    m.read_or_request(vault.get(m.key_manager.identity()))
}

/// An elicitation for `template` to which nothing has been answered yet.
pub open spec fn fresh(template: Seq<FieldView>) -> ElicitationView {
    ElicitationView { template, answers: Seq::<Primitive>::empty() }
}

/// The elicitation `e` after the lines `lines`, supplied in their order.
pub open spec fn after(e: ElicitationView, lines: Seq<Seq<char>>) -> ElicitationView
    decreases lines.len(),
{
    if lines.len() == 0 {
        e
    } else {
        after(e, lines.drop_last()).supply(lines.last()).0
    }
}

/// A record that was written is the record that the next read returns,
/// whatever the store held before, if the record round-trips through its
/// text, which `check_round_trip` tells, and the override source holds no
/// value for the key.
pub proof fn record_store_then_read(m: StructKeyManagerView, vault: Vault, value: Seq<FieldView>)
    requires
        m.key_manager.override_value() is None,
        round_trips(value, m.template),
    ensures
        ({
            let (m1, vault1, written) = store_record_in(m, vault, value);
            &&& written is Ok
            &&& read_record_in(m1, vault1).1 == Ok::<Seq<FieldView>, KeyError>(value)
        }),
{
    decoded_has_shape(encoded(value)->Ok_0, m.template);
}

/// Of two writes the second is the one that the next read returns, under
/// the conditions of [`record_store_then_read`] for the second record.
pub proof fn record_second_store_wins(
    m: StructKeyManagerView,
    vault: Vault,
    first: Seq<FieldView>,
    second: Seq<FieldView>,
)
    requires
        m.key_manager.override_value() is None,
        round_trips(second, m.template),
    ensures
        ({
            let (m1, vault1, _) = store_record_in(m, vault, first);
            let (m2, vault2, _) = store_record_in(m1, vault1, second);
            read_record_in(m2, vault2).1 == Ok::<Seq<FieldView>, KeyError>(second)
        }),
{
    decoded_has_shape(encoded(second)->Ok_0, m.template);
}

/// After a deletion, whether it succeeded or found nothing to delete, a
/// read finds nothing, unless the override source holds a value for the key.
pub proof fn record_delete_then_read(m: StructKeyManagerView, vault: Vault)
    requires
        m.key_manager.override_value() is None,
    ensures
        ({
            let (m1, vault1, _) = delete_record_in(m, vault);
            read_record_in(m1, vault1).1 == Err::<Seq<FieldView>, KeyError>(KeyError::NotFound)
        }),
{
}

/// Deleting a record that the store does not hold is a `StoreError`, and
/// changes neither the store nor the manager.
pub proof fn record_delete_tells_absence(m: StructKeyManagerView, vault: Vault)
    requires
        !vault.secrets.contains_key(m.key_manager.identity()),
    ensures
        delete_record_in(m, vault) == (m, vault, Err::<(), KeyError>(KeyError::StoreError)),
{
}

/// Lines that are supplied to an elicitation leave its template alone and
/// keep every answer of the primitive type of its field.
pub proof fn answers_keep_shape(e: ElicitationView, lines: Seq<Seq<char>>)
    requires
        e.wf(),
    ensures
        after(e, lines).wf(),
        after(e, lines).template == e.template,
        after(e, lines).is_complete() ==> same_shape(after(e, lines).record(), e.template),
    decreases lines.len(),
{
    if lines.len() > 0 {
        answers_keep_shape(e, lines.drop_last());
    }
}

/// A line that does not write an integer, supplied for a pending integer
/// field, is rejected and changes nothing: the same field is pending and
/// will be asked for again. The same holds of a line that writes neither
/// `true` nor `false` and a pending boolean field.
pub proof fn rejected_line_asks_again(e: ElicitationView, line: Seq<char>)
    requires
        !e.is_complete(),
        coerced(e.pending().value.kind(), trimmed(line)) is None,
    ensures
        e.supply(line).0 == e,
        e.supply(line).1 is Rejected,
        e.supply(line).0.pending() == e.pending(),
        e.pending().value.kind() != FieldKind::Text,
{
}

/// A line that can be taken for the pending field is its answer, and the
/// field after it is pending.
pub proof fn accepted_line_moves_on(e: ElicitationView, line: Seq<char>)
    requires
        !e.is_complete(),
        coerced(e.pending().value.kind(), trimmed(line)) is Some,
    ensures
        e.supply(line).1 is Accepted,
        e.supply(line).0.answers == e.answers.push(
            coerced(e.pending().value.kind(), trimmed(line))->0,
        ),
{
}

/// Where neither the override source nor the store holds the record, a read
/// that falls back on the user starts an elicitation for the template. Once
/// the user's lines have answered every field, the record that the answers
/// make is returned and stored, so that the next read, with or without
/// fallback, returns it and asks nothing. The record must round-trip through
/// its text.
pub proof fn record_request_is_returned_and_stored(
    m: StructKeyManagerView,
    vault: Vault,
    lines: Seq<Seq<char>>,
)
    requires
        m.key_manager.override_value() is None,
        !vault.secrets.contains_key(m.key_manager.identity()),
        after(fresh(m.template), lines).is_complete(),
        round_trips(after(fresh(m.template), lines).record(), m.template),
    ensures
        ({
            let (m1, asked) = read_or_request_record_in(m, vault);
            let answers = after(fresh(m.template), lines);
            let (m2, vault2, given) = request_record_in(m1, vault, answers);
            &&& asked == (LookupView::<Seq<FieldView>, ElicitationView>::Ask {
                notice: NOT_FOUND_NOTICE@,
                request: fresh(m.template),
            })
            &&& given == Ok::<Seq<FieldView>, KeyError>(answers.record())
            &&& read_record_in(m2, vault2).1 == given
            &&& read_or_request_record_in(m2, vault2).1 == LookupView::<
                Seq<FieldView>,
                ElicitationView,
            >::Found(answers.record())
        }),
{
    answers_keep_shape(fresh(m.template), lines);
}

/// Whatever the failure of a read, text in the store that does not decode
/// too, a read that falls back on the user asks for the whole record.
pub proof fn every_failure_asks(m: StructKeyManagerView, reply: Result<Seq<char>, StoreFault>)
    ensures
        m.read(reply).1 is Err ==> m.read_or_request(reply).1 == (LookupView::<
            Seq<FieldView>,
            ElicitationView,
        >::Ask { notice: NOT_FOUND_NOTICE@, request: fresh(m.template) }),
        m.read(reply).1 matches Ok(value) ==> m.read_or_request(reply).1 == LookupView::<
            Seq<FieldView>,
            ElicitationView,
        >::Found(value),
{
}

} // verus!

//! The text form of a record: a JSON object with one member for each field,
//! written and read by `serde_json`.

use crate::error::KeyError;
use crate::record::{FieldValue, FieldView, Primitive, Record};
use serde_json::Value;
use vstd::prelude::*;

verus! {

/// `serde_json::Error`, which tells no more here than that a call failed.
#[verifier::external_type_specification]
#[verifier::external_body]
pub struct ExJsonError(serde_json::Error);

/// The value of a member of a JSON object, as far as a flat record has use
/// for it.
#[derive(Debug, PartialEq, Eq)]
pub enum JsonValue {
    /// A string, an integer that `i64` holds, or a boolean.
    Primitive(FieldValue),
    /// Any other number.
    Number,
    /// Null, an array or an object.
    Other,
}

/// A member's value as contracts see it.
pub enum JsonValueView {
    Primitive(Primitive),
    Number,
    Other,
}

impl View for JsonValue {
    type V = JsonValueView;

    open spec fn view(&self) -> JsonValueView {
        match self {
            JsonValue::Primitive(v) => JsonValueView::Primitive(v@),
            JsonValue::Number => JsonValueView::Number,
            JsonValue::Other => JsonValueView::Other,
        }
    }
}

/// A member of a JSON object.
#[derive(Debug, PartialEq, Eq)]
pub struct Member {
    pub name: String,
    pub value: JsonValue,
}

/// A member as contracts see it.
pub struct MemberView {
    pub name: Seq<char>,
    pub value: JsonValueView,
}

impl View for Member {
    type V = MemberView;

    open spec fn view(&self) -> MemberView {
        MemberView { name: self.name@, value: self.value@ }
    }
}

/// The members of a list, each by its view.
pub open spec fn member_views(members: Seq<Member>) -> Seq<MemberView> {
    members.map_values(|m: Member| m@)
}

/// The members of the JSON object that `text` is, in the order in which
/// `serde_json` holds them; `None` where `text` is not a JSON object.
pub uninterp spec fn json_members(text: Seq<char>) -> Option<Seq<MemberView>>;

/// The JSON text that `serde_json` writes for an object with these fields;
/// `None` where it refuses to write one.
pub uninterp spec fn json_text(fields: Seq<FieldView>) -> Option<Seq<char>>;

/// Parses `text` with `serde_json::from_str` into a `serde_json::Map` and
/// hands out its members in the map's order, each `serde_json::Value` as
/// the [`JsonValue`] of its variant. A number goes through
/// `serde_json::Number::as_i64` and is a primitive where that gives an
/// integer. The contract gives the outcome the name [`json_members`] and
/// claims nothing else of it.
#[verifier::external_body]
fn parse_object(text: &str) -> (r: Result<Vec<Member>, serde_json::Error>)
    ensures
        match r {
            Ok(members) => json_members(text@) == Some(member_views(members@)),
            Err(_) => json_members(text@) is None,
        },
{
    let object: serde_json::Map<String, Value> = serde_json::from_str(text)?;
    let mut members = Vec::new();
    for (name, value) in object {
        let value = match value {
            Value::String(s) => JsonValue::Primitive(FieldValue::Text(s)),
            Value::Bool(b) => JsonValue::Primitive(FieldValue::Flag(b)),
            Value::Number(n) => match n.as_i64() {
                Some(i) => JsonValue::Primitive(FieldValue::Integer(i)),
                None => JsonValue::Number,
            },
            Value::Null | Value::Array(_) | Value::Object(_) => JsonValue::Other,
        };
        members.push(Member { name, value });
    }
    Ok(members)
}

/// Puts the fields into a `serde_json::Map`, in their order, and writes it
/// with `serde_json::to_string`. The contract gives the outcome the name
/// [`json_text`] and claims nothing else of it, not even that it is a text.
#[verifier::external_body]
fn render_object(record: &Record) -> (r: Result<String, serde_json::Error>)
    ensures
        match r {
            Ok(text) => json_text(record@) == Some(text@),
            Err(_) => json_text(record@) is None,
        },
{
    let mut object = serde_json::Map::new();
    for field in record.fields.iter() {
        let value = match &field.value {
            FieldValue::Text(s) => Value::String(s.clone()),
            FieldValue::Integer(n) => Value::from(*n),
            FieldValue::Flag(b) => Value::Bool(*b),
        };
        object.insert(field.name.clone(), value);
    }
    serde_json::to_string(&object)
}

/// The first member called `name`.
pub open spec fn member_named(members: Seq<MemberView>, name: Seq<char>) -> Option<MemberView>
    decreases members.len(),
{
    if members.len() == 0 {
        None
    } else if members.first().name == name {
        Some(members.first())
    } else {
        member_named(members.drop_first(), name)
    }
}

/// The field that `members` hold for `slot`: the value of the first member
/// with the slot's name, where it is of the primitive type of the slot's
/// own value.
pub open spec fn fitted(members: Seq<MemberView>, slot: FieldView) -> Option<FieldView> {
    match member_named(members, slot.name) {
        Some(MemberView { value: JsonValueView::Primitive(v), .. }) => if v.kind()
            == slot.value.kind() {
            Some(FieldView { name: slot.name, value: v })
        } else {
            None
        },
        _ => None,
    }
}

/// The record of the template's shape that `members` hold: for each field of
/// the template, in the template's order, the fitting member. There is none
/// where a field has no fitting member; members beyond the template's fields
/// do not count.
pub open spec fn shaped(members: Seq<MemberView>, template: Seq<FieldView>) -> Option<
    Seq<FieldView>,
> {
    if forall|i: int| 0 <= i < template.len() ==> fitted(members, #[trigger] template[i]) is Some {
        Some(Seq::new(template.len(), |i: int| fitted(members, template[i])->0))
    } else {
        None
    }
}

/// What decoding `text` against `template` gives.
pub open spec fn decoded(text: Seq<char>, template: Seq<FieldView>) -> Result<
    Seq<FieldView>,
    KeyError,
> {
    match json_members(text) {
        Some(members) => match shaped(members, template) {
            Some(fields) => Ok(fields),
            None => Err(KeyError::DecodeError),
        },
        None => Err(KeyError::DecodeError),
    }
}

fn find_member<'a>(members: &'a Vec<Member>, name: &String) -> (r: Option<&'a Member>)
    ensures
        match r {
            Some(m) => member_named(member_views(members@), name@) == Some(m@),
            None => member_named(member_views(members@), name@) is None,
        },
{
    let ghost all = member_views(members@);
    let mut i: usize = 0;
    assert(all.subrange(0, all.len() as int) =~= all);
    while i < members.len()
        invariant
            i <= members.len(),
            all == member_views(members@),
            member_named(all, name@) == member_named(
                all.subrange(i as int, all.len() as int),
                name@,
            ),
        decreases members.len() - i,
    {
        let ghost rest = all.subrange(i as int, all.len() as int);
        assert(rest.first() == members@[i as int]@);
        if members[i].name == *name {
            return Some(&members[i]);
        }
        assert(rest.drop_first() =~= all.subrange(i + 1, all.len() as int));
        i = i + 1;
    }
    None
}

/// Builds the record of the template's shape out of parsed members.
pub fn from_members(members: &Vec<Member>, template: &Record) -> (r: Option<Record>)
    ensures
        match r {
            Some(record) => shaped(member_views(members@), template@) == Some(record@),
            None => shaped(member_views(members@), template@) is None,
        },
{
    let ghost all = member_views(members@);
    let mut record = Record::new();
    let mut i: usize = 0;
    while i < template.fields.len()
        invariant
            i <= template.fields.len(),
            all == member_views(members@),
            record@.len() == i,
            forall|j: int| 0 <= j < i ==> fitted(all, #[trigger] template@[j]) == Some(record@[j]),
        decreases template.fields.len() - i,
    {
        let slot = &template.fields[i];
        assert(template@[i as int] == slot@);
        let found = match find_member(members, &slot.name) {
            Some(member) => match &member.value {
                JsonValue::Primitive(value) => if value.kind() == slot.value.kind() {
                    Some(value.clone())
                } else {
                    None
                },
                _ => None,
            },
            None => None,
        };
        match found {
            Some(value) => {
                record.push(slot.name.as_str(), value);
            },
            None => {
                assert(fitted(all, template@[i as int]) is None);
                return None;
            },
        }
        i = i + 1;
    }
    assert(record@ =~= Seq::new(template@.len(), |i: int| fitted(all, template@[i])->0));
    Some(record)
}

/// The field that a member of a default record stands for: the member's
/// name, with its value if that is primitive. A number that is not shows an
/// integer field and anything else a text field; their values are zero and
/// the empty text.
pub open spec fn slot_of(member: MemberView) -> FieldView {
    FieldView {
        name: member.name,
        value: match member.value {
            JsonValueView::Primitive(v) => v,
            JsonValueView::Number => Primitive::Integer(0),
            JsonValueView::Other => Primitive::Text(Seq::<char>::empty()),
        },
    }
}

/// The template that the text of a default record gives: one field for each
/// member, in the members' order.
pub open spec fn template_in(text: Seq<char>) -> Result<Seq<FieldView>, KeyError> {
    match json_members(text) {
        Some(members) => Ok(members.map_values(|m: MemberView| slot_of(m))),
        None => Err(KeyError::DecodeError),
    }
}

/// Builds a template out of the parsed members of a default record.
pub fn template_from_members(members: &Vec<Member>) -> (r: Record)
    ensures
        r@ == member_views(members@).map_values(|m: MemberView| slot_of(m)),
{
    let mut template = Record::new();
    let mut i: usize = 0;
    while i < members.len()
        invariant
            i <= members.len(),
            template@.len() == i,
            forall|j: int| 0 <= j < i ==> #[trigger] template@[j] == slot_of(members@[j]@),
        decreases members.len() - i,
    {
        let member = &members[i];
        let value = match &member.value {
            JsonValue::Primitive(value) => value.clone(),
            JsonValue::Number => FieldValue::Integer(0),
            JsonValue::Other => FieldValue::Text(String::new()),
        };
        template.push(member.name.as_str(), value);
        i = i + 1;
    }
    assert(template@ =~= member_views(members@).map_values(|m: MemberView| slot_of(m)));
    template
}

/// Reads the text of a default record for the template that it gives: the
/// names of its fields, their order and their primitive types.
pub fn template_of(text: &str) -> (r: Result<Record, KeyError>)
    ensures
        match r {
            Ok(template) => template_in(text@) == Ok::<Seq<FieldView>, KeyError>(template@),
            Err(e) => template_in(text@) == Err::<Seq<FieldView>, KeyError>(e),
        },
{
    match parse_object(text) {
        Ok(members) => Ok(template_from_members(&members)),
        Err(_) => Err(KeyError::DecodeError),
    }
}

/// Reads `text` as a record of the template's shape.
pub fn decode(text: &str, template: &Record) -> (r: Result<Record, KeyError>)
    ensures
        match r {
            Ok(record) => decoded(text@, template@) == Ok::<Seq<FieldView>, KeyError>(record@),
            Err(e) => decoded(text@, template@) == Err::<Seq<FieldView>, KeyError>(e),
        },
{
    match parse_object(text) {
        Ok(members) => match from_members(&members, template) {
            Some(record) => Ok(record),
            None => Err(KeyError::DecodeError),
        },
        Err(_) => Err(KeyError::DecodeError),
    }
}

/// What encoding `fields` gives. A record that cannot be written cannot be
/// stored, so the failure is a failure to store.
pub open spec fn encoded(fields: Seq<FieldView>) -> Result<Seq<char>, KeyError> {
    match json_text(fields) {
        Some(text) => Ok(text),
        None => Err(KeyError::StoreError),
    }
}

/// Writes `record` as text.
pub fn encode(record: &Record) -> (r: Result<String, KeyError>)
    ensures
        match r {
            Ok(text) => encoded(record@) == Ok::<Seq<char>, KeyError>(text@),
            Err(e) => encoded(record@) == Err::<Seq<char>, KeyError>(e),
        },
{
    match render_object(record) {
        Ok(text) => Ok(text),
        Err(_) => Err(KeyError::StoreError),
    }
}

/// Whether `value` has a text that decodes, against `template`, to `value`.
pub open spec fn round_trips(value: Seq<FieldView>, template: Seq<FieldView>) -> bool {
    encoded(value) matches Ok(text) && decoded(text, template) == Ok::<Seq<FieldView>, KeyError>(
        value,
    )
}

/// Encodes `value`, decodes the text against `template` and says whether
/// `value` came back.
pub fn check_round_trip(value: &Record, template: &Record) -> (r: bool)
    ensures
        r == round_trips(value@, template@),
{
    match encode(value) {
        Ok(text) => match decode(text.as_str(), template) {
            Ok(back) => back.same_as(value),
            Err(_) => false,
        },
        Err(_) => false,
    }
}

} // verus!

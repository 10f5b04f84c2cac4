//! Asking a user for a record, field by field.
//!
//! An [`Elicitation`] holds the answers given so far. Its caller shows the
//! prompt, reads a line from the console and supplies it; a line that cannot
//! be taken for the pending field is rejected, and the same field is asked
//! again.

use crate::record::{FieldKind, FieldValue, FieldView, Primitive, Record};
use crate::text::{flag_of, integer_of, parse_flag, parse_integer, trim, trimmed};
use vstd::prelude::*;

verus! {

/// The value that `input` gives a field of primitive type `kind`: the
/// integer or the boolean that it writes, if it writes one, and for a text
/// field the input as it is.
pub open spec fn coerced(kind: FieldKind, input: Seq<char>) -> Option<Primitive> {
    match kind {
        FieldKind::Integer => match integer_of(input) {
            Some(n) => Some(Primitive::Integer(n)),
            None => None,
        },
        FieldKind::Flag => match flag_of(input) {
            Some(b) => Some(Primitive::Flag(b)),
            None => None,
        },
        FieldKind::Text => Some(Primitive::Text(input)),
    }
}

/// Takes `input` for a value of primitive type `kind`.
pub fn coerce(kind: FieldKind, input: &str) -> (r: Option<FieldValue>)
    ensures
        match r {
            Some(value) => coerced(kind, input@) == Some(value@),
            None => coerced(kind, input@) is None,
        },
{
    match kind {
        FieldKind::Integer => match parse_integer(input) {
            Some(n) => Some(FieldValue::Integer(n)),
            None => None,
        },
        FieldKind::Flag => match parse_flag(input) {
            Some(b) => Some(FieldValue::Flag(b)),
            None => None,
        },
        FieldKind::Text => Some(FieldValue::Text(input.to_owned())),
    }
}

/// The text that asks for the field called `name`.
pub open spec fn field_prompt(name: Seq<char>) -> Seq<char> {
    "Please enter the value for field '"@ + name + "':"@
}

/// The text that tells the user that the input for the field called `name`
/// was not of its primitive type `kind`.
pub open spec fn rejection(name: Seq<char>, kind: FieldKind) -> Seq<char> {
    "Invalid input for field '"@ + name + if kind == FieldKind::Flag {
        "'. Expected true or false."@
    } else {
        "'. Expected a number."@
    }
}

/// What became of a line of input.
#[derive(Debug, PartialEq, Eq)]
pub enum Step {
    /// The line was taken for the pending field; the next field is pending.
    Accepted,
    /// The line is not of the pending field's primitive type. The field is
    /// still pending, and the payload is the message for the user.
    Rejected(String),
    /// No field was pending, and the line was dropped.
    Complete,
}

/// A step as contracts see it.
pub enum StepView {
    Accepted,
    Rejected(Seq<char>),
    Complete,
}

impl View for Step {
    type V = StepView;

    open spec fn view(&self) -> StepView {
        match self {
            Step::Accepted => StepView::Accepted,
            Step::Rejected(message) => StepView::Rejected(message@),
            Step::Complete => StepView::Complete,
        }
    }
}

/// An elicitation as contracts see it: the template whose fields are asked
/// for, in its order, and the answers to the first of them.
pub struct ElicitationView {
    pub template: Seq<FieldView>,
    pub answers: Seq<Primitive>,
}

impl ElicitationView {
    /// There are no more answers than fields, and each answer is of the
    /// primitive type that the template's value for its field has.
    pub open spec fn wf(self) -> bool {
        &&& self.answers.len() <= self.template.len()
        &&& forall|i: int|
            0 <= i < self.answers.len() ==> (#[trigger] self.answers[i]).kind()
                == self.template[i].value.kind()
    }

    /// Whether every field has its answer.
    pub open spec fn is_complete(self) -> bool {
        self.answers.len() >= self.template.len()
    }

    /// The field that is asked for next.
    pub open spec fn pending(self) -> FieldView
        recommends
            !self.is_complete(),
    {
        self.template[self.answers.len() as int]
    }

    /// The elicitation after the line `line`, and what became of the line.
    /// The line is trimmed and taken for the pending field according to the
    /// primitive type of the template's value. If it cannot be, nothing
    /// changes: the same field stays pending.
    pub open spec fn supply(self, line: Seq<char>) -> (ElicitationView, StepView) {
        if self.is_complete() {
            (self, StepView::Complete)
        } else {
            let slot = self.pending();
            match coerced(slot.value.kind(), trimmed(line)) {
                Some(value) => (
                    ElicitationView { answers: self.answers.push(value), ..self },
                    StepView::Accepted,
                ),
                None => (self, StepView::Rejected(rejection(slot.name, slot.value.kind()))),
            }
        }
    }

    /// The record that the answers make: the template's names, each with its answer.
    pub open spec fn record(self) -> Seq<FieldView>
        recommends
            self.is_complete(),
    {
        Seq::new(
            self.template.len(),
            |i: int| FieldView { name: self.template[i].name, value: self.answers[i] },
        )
    }
}

/// The state of asking a user for a record of a template's shape.
#[derive(Debug, PartialEq, Eq)]
pub struct Elicitation {
    template: Record,
    answers: Vec<FieldValue>,
}

impl View for Elicitation {
    type V = ElicitationView;

    closed spec fn view(&self) -> ElicitationView {
        ElicitationView {
            template: self.template@,
            answers: self.answers@.map_values(|v: FieldValue| v@),
        }
    }
}

impl Elicitation {
    /// Starts asking for a record with the names and primitive types of
    /// `template`. The template's values only give the types.
    pub fn new(template: &Record) -> (r: Elicitation)
        ensures
            r@.template == template@,
            r@.answers == Seq::<Primitive>::empty(),
            r@.wf(),
    {
        let r = Elicitation { template: template.clone(), answers: Vec::new() };
        assert(r@.answers =~= Seq::<Primitive>::empty());
        r
    }

    /// Whether every field has its answer.
    pub fn is_complete(&self) -> (r: bool)
        ensures
            r == self@.is_complete(),
    {
        self.answers.len() >= self.template.fields.len()
    }

    /// The text that asks for the pending field; `None` once every field has
    /// its answer.
    pub fn prompt(&self) -> (r: Option<String>)
        ensures
            match r {
                Some(text) => !self@.is_complete() && text@ == field_prompt(self@.pending().name),
                None => self@.is_complete(),
            },
    {
        let asked = self.answers.len();
        if asked >= self.template.fields.len() {
            return None;
        }
        let slot = &self.template.fields[asked];
        assert(self@.pending() == slot@);
        let mut text = String::from_str("Please enter the value for field '");
        text.append(slot.name.as_str());
        text.append("':");
        Some(text)
    }

    /// Takes the line `line`, which the user gave at the prompt, for the
    /// pending field.
    pub fn supply(&mut self, line: &str) -> (r: Step)
        ensures
            (final(self)@, r@) == old(self)@.supply(line@),
            old(self)@.wf() ==> final(self)@.wf(),
    {
        let asked = self.answers.len();
        if asked >= self.template.fields.len() {
            return Step::Complete;
        }
        let slot = &self.template.fields[asked];
        assert(self@.pending() == slot@);
        let kind = slot.value.kind();
        match coerce(kind, trim(line)) {
            Some(value) => {
                self.answers.push(value);
                assert(self@.answers =~= old(self)@.answers.push(value@));
                Step::Accepted
            },
            None => {
                let mut message = String::from_str("Invalid input for field '");
                message.append(slot.name.as_str());
                match kind {
                    FieldKind::Flag => message.append("'. Expected true or false."),
                    _ => message.append("'. Expected a number."),
                }
                Step::Rejected(message)
            },
        }
    }

    /// The record that the answers make, once every field has its answer.
    pub fn record(&self) -> (r: Option<Record>)
        ensures
            match r {
                Some(record) => self@.is_complete() && record@ == self@.record(),
                None => !self@.is_complete(),
            },
    {
        let n = self.template.fields.len();
        if self.answers.len() < n {
            return None;
        }
        let mut record = Record::new();
        let mut i: usize = 0;
        while i < n
            invariant
                i <= n,
                n == self.template.fields.len(),
                n <= self.answers.len(),
                record@.len() == i,
                forall|j: int|
                    0 <= j < i ==> #[trigger] record@[j] == (FieldView {
                        name: self@.template[j].name,
                        value: self@.answers[j],
                    }),
            decreases n - i,
        {
            let slot = &self.template.fields[i];
            assert(self@.template[i as int] == slot@);
            record.push(slot.name.as_str(), self.answers[i].clone());
            i = i + 1;
        }
        assert(record@ =~= self@.record());
        Some(record)
    }
}

} // verus!

//! Flat records: named fields in a fixed order, each a string, an integer or
//! a boolean.

use vstd::prelude::*;

verus! {

/// The primitive type of a field.
#[derive(Debug, Clone, Copy, PartialEq, Eq, Structural)]
pub enum FieldKind {
    Text,
    Integer,
    Flag,
}

/// The value of a field.
#[derive(Debug, PartialEq, Eq)]
pub enum FieldValue {
    Text(String),
    Integer(i64),
    Flag(bool),
}

/// A field's value as contracts see it.
pub enum Primitive {
    Text(Seq<char>),
    Integer(i64),
    Flag(bool),
}

impl Primitive {
    pub open spec fn kind(self) -> FieldKind {
        match self {
            Primitive::Text(_) => FieldKind::Text,
            Primitive::Integer(_) => FieldKind::Integer,
            Primitive::Flag(_) => FieldKind::Flag,
        }
    }
}

impl View for FieldValue {
    type V = Primitive;

    open spec fn view(&self) -> Primitive {
        match self {
            FieldValue::Text(s) => Primitive::Text(s@),
            FieldValue::Integer(n) => Primitive::Integer(*n),
            FieldValue::Flag(b) => Primitive::Flag(*b),
        }
    }
}

impl Clone for FieldValue {
    fn clone(&self) -> (r: Self)
        ensures
            r@ == self@,
    {
        match self {
            FieldValue::Text(s) => FieldValue::Text(s.clone()),
            FieldValue::Integer(n) => FieldValue::Integer(*n),
            FieldValue::Flag(b) => FieldValue::Flag(*b),
        }
    }
}

impl FieldValue {
    /// Whether `other` is the same value.
    pub fn same_as(&self, other: &FieldValue) -> (r: bool)
        ensures
            r == (self@ == other@),
    {
        match (self, other) {
            (FieldValue::Text(a), FieldValue::Text(b)) => *a == *b,
            (FieldValue::Integer(a), FieldValue::Integer(b)) => *a == *b,
            (FieldValue::Flag(a), FieldValue::Flag(b)) => *a == *b,
            _ => false,
        }
    }

    /// The primitive type of this value.
    pub fn kind(&self) -> (r: FieldKind)
        ensures
            r == self@.kind(),
    {
        match self {
            FieldValue::Text(_) => FieldKind::Text,
            FieldValue::Integer(_) => FieldKind::Integer,
            FieldValue::Flag(_) => FieldKind::Flag,
        }
    }
}

/// A named value.
#[derive(Debug, PartialEq, Eq)]
pub struct Field {
    pub name: String,
    pub value: FieldValue,
}

/// A field as contracts see it.
pub struct FieldView {
    pub name: Seq<char>,
    pub value: Primitive,
}

impl View for Field {
    type V = FieldView;

    open spec fn view(&self) -> FieldView {
        FieldView { name: self.name@, value: self.value@ }
    }
}

impl Clone for Field {
    fn clone(&self) -> (r: Self)
        ensures
            r@ == self@,
    {
        Field { name: self.name.clone(), value: self.value.clone() }
    }
}

/// Whether two lists of fields have the same names, in the same order, with
/// values of the same primitive types.
pub open spec fn same_shape(a: Seq<FieldView>, b: Seq<FieldView>) -> bool {
    &&& a.len() == b.len()
    &&& forall|i: int|
        0 <= i < a.len() ==> (#[trigger] a[i]).name == b[i].name && a[i].value.kind()
            == b[i].value.kind()
}

/// A flat record. The order of its fields is the order in which they were
/// added, and the order in which a user is asked for them.
#[derive(Debug, PartialEq, Eq)]
pub struct Record {
    pub fields: Vec<Field>,
}

impl View for Record {
    type V = Seq<FieldView>;

    open spec fn view(&self) -> Seq<FieldView> {
        self.fields@.map_values(|f: Field| f@)
    }
}

impl Clone for Record {
    fn clone(&self) -> (r: Self)
        ensures
            r@ == self@,
    {
        let mut fields: Vec<Field> = Vec::new();
        let mut i: usize = 0;
        while i < self.fields.len()
            invariant
                i <= self.fields.len(),
                fields@.len() == i,
                forall|j: int| 0 <= j < i ==> (#[trigger] fields@[j])@ == self.fields@[j]@,
            decreases self.fields.len() - i,
        {
            fields.push(self.fields[i].clone());
            i = i + 1;
        }
        let r = Record { fields };
        assert(r@ =~= self@);
        r
    }
}

impl Record {
    /// The record without fields.
    pub fn new() -> (r: Record)
        ensures
            r@ == Seq::<FieldView>::empty(),
    {
        let r = Record { fields: Vec::new() };
        assert(r@ =~= Seq::<FieldView>::empty());
        r
    }

    /// Adds a field after those that the record has.
    pub fn push(&mut self, name: &str, value: FieldValue)
        ensures
            final(self)@ == old(self)@.push(FieldView { name: name@, value: value@ }),
    {
        self.fields.push(Field { name: name.to_owned(), value });
        assert(self@ =~= old(self)@.push(FieldView { name: name@, value: value@ }));
    }

    /// The number of fields.
    pub fn len(&self) -> (n: usize)
        ensures
            n == self@.len(),
    {
        self.fields.len()
    }

    /// Whether `other` has the same fields with the same values, in the
    /// same order.
    pub fn same_as(&self, other: &Record) -> (r: bool)
        ensures
            r == (self@ == other@),
    {
        if self.fields.len() != other.fields.len() {
            assert(self@.len() != other@.len());
            return false;
        }
        let mut i: usize = 0;
        while i < self.fields.len()
            invariant
                i <= self.fields.len(),
                self.fields.len() == other.fields.len(),
                forall|j: int| 0 <= j < i ==> #[trigger] self@[j] == other@[j],
            decreases self.fields.len() - i,
        {
            let a = &self.fields[i];
            let b = &other.fields[i];
            assert(self@[i as int] == a@);
            assert(other@[i as int] == b@);
            if !(a.name == b.name && a.value.same_as(&b.value)) {
                return false;
            }
            i = i + 1;
        }
        assert(self@ =~= other@);
        true
    }

    /// Whether `other` has the fields of this record by name, order and
    /// primitive type, whatever their values.
    pub fn same_shape(&self, other: &Record) -> (r: bool)
        ensures
            r == same_shape(self@, other@),
    {
        if self.fields.len() != other.fields.len() {
            return false;
        }
        let mut i: usize = 0;
        while i < self.fields.len()
            invariant
                i <= self.fields.len(),
                self.fields.len() == other.fields.len(),
                forall|j: int|
                    0 <= j < i ==> (#[trigger] self@[j]).name == other@[j].name
                        && self@[j].value.kind() == other@[j].value.kind(),
            decreases self.fields.len() - i,
        {
            let a = &self.fields[i];
            let b = &other.fields[i];
            if !(a.name == b.name && a.value.kind() == b.value.kind()) {
                assert(self@[i as int] == a@);
                assert(other@[i as int] == b@);
                return false;
            }
            assert(self@[i as int] == a@);
            assert(other@[i as int] == b@);
            i = i + 1;
        }
        true
    }
}

} // verus!

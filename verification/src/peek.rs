//! Read-only snapshots of initialized values.
//!
//! A snapshot holds what a reader of a value sees through its shape: where
//! the value lies, what its type is called, and, by kind, the text of a
//! scalar, the fields of a struct or the elements of a list.

use vstd::prelude::*;

verus! {

/// What every value shows, whatever its kind.
pub struct PeekValue {
    /// The address of the value. It serves to tell whether two snapshots are
    /// of the same memory, and for nothing else.
    pub data: usize,
    /// The name of the value's type, with all its type parameters.
    pub shape_name: String,
    /// The hash of the definition of the value's shape.
    pub shape_hash: u64,
    /// The value as its shape displays it, where the shape can.
    pub display: Option<String>,
    /// The value as its shape prints it for debugging, where the shape can.
    pub debug: Option<String>,
}

/// A field of a struct: its name, the flag bits of its declaration, and its
/// value.
pub struct PeekField {
    pub name: String,
    pub flags: u64,
    pub value: Peek,
}

/// A struct, a tuple struct or a tuple, with its fields in declaration
/// order.
pub struct PeekStruct {
    pub value: PeekValue,
    pub fields: Vec<PeekField>,
}

/// A list, with its elements in order.
pub struct PeekList {
    pub value: PeekValue,
    pub items: Vec<Peek>,
}

/// A map. Its entries are not part of the snapshot.
pub struct PeekMap {
    pub value: PeekValue,
}

/// A snapshot of a value of any kind.
pub enum Peek {
    Value(PeekValue),
    List(PeekList),
    Mapping(PeekMap),
    Struct(PeekStruct),
}

/// The model of a [`PeekValue`].
pub struct ValueView {
    pub data: usize,
    pub shape_name: Seq<char>,
    pub shape_hash: u64,
    pub display: Option<Seq<char>>,
    pub debug: Option<Seq<char>>,
}

/// The model of a [`PeekField`].
pub struct FieldView {
    pub name: Seq<char>,
    pub flags: u64,
    pub value: PeekView,
}

/// The model of a [`PeekStruct`].
pub struct StructView {
    pub value: ValueView,
    pub fields: Seq<FieldView>,
}

/// The model of a [`PeekList`].
pub struct ListView {
    pub value: ValueView,
    pub items: Seq<PeekView>,
}

/// The model of a [`PeekMap`].
pub struct MapView {
    pub value: ValueView,
}

/// The model of a [`Peek`].
pub enum PeekView {
    Value(ValueView),
    List(ListView),
    Mapping(MapView),
    Struct(StructView),
}

/// The text of an optional string.
pub open spec fn text_view(text: Option<String>) -> Option<Seq<char>> {
    match text {
        Some(s) => Some(s@),
        None => None,
    }
}

/// The model of a snapshot.
pub open spec fn peek_view(peek: Peek) -> PeekView
    decreases peek,
{
    match peek {
        Peek::Value(v) => PeekView::Value(v@),
        Peek::List(l) => PeekView::List(
            ListView { value: l.value@, items: items_view(l.items@) },
        ),
        Peek::Mapping(m) => PeekView::Mapping(MapView { value: m.value@ }),
        Peek::Struct(s) => PeekView::Struct(
            StructView { value: s.value@, fields: fields_view(s.fields@) },
        ),
    }
}

/// The models of the elements of a list.
pub open spec fn items_view(items: Seq<Peek>) -> Seq<PeekView>
    decreases items,
{
    Seq::new(
        items.len(),
        |i: int|
            if 0 <= i < items.len() {
                peek_view(items[i])
            } else {
                arbitrary()
            },
    )
}

/// The model of a field.
pub open spec fn field_view(field: PeekField) -> FieldView
    decreases field,
{
    FieldView { name: field.name@, flags: field.flags, value: peek_view(field.value) }
}

/// The models of the fields of a struct.
pub open spec fn fields_view(fields: Seq<PeekField>) -> Seq<FieldView>
    decreases fields,
{
    Seq::new(
        fields.len(),
        |i: int|
            if 0 <= i < fields.len() {
                field_view(fields[i])
            } else {
                arbitrary()
            },
    )
}

impl View for PeekValue {
    type V = ValueView;

    open spec fn view(&self) -> ValueView {
        ValueView {
            data: self.data,
            shape_name: self.shape_name@,
            shape_hash: self.shape_hash,
            display: text_view(self.display),
            debug: text_view(self.debug),
        }
    }
}

impl View for PeekField {
    type V = FieldView;

    open spec fn view(&self) -> FieldView {
        field_view(*self)
    }
}

impl View for PeekStruct {
    type V = StructView;

    open spec fn view(&self) -> StructView {
        StructView { value: self.value@, fields: fields_view(self.fields@) }
    }
}

impl View for PeekList {
    type V = ListView;

    open spec fn view(&self) -> ListView {
        ListView { value: self.value@, items: items_view(self.items@) }
    }
}

impl View for PeekMap {
    type V = MapView;

    open spec fn view(&self) -> MapView {
        MapView { value: self.value@ }
    }
}

impl View for Peek {
    type V = PeekView;

    open spec fn view(&self) -> PeekView {
        peek_view(*self)
    }
}

impl PeekView {
    /// What the value shows, whatever its kind.
    pub open spec fn value(self) -> ValueView {
        match self {
            PeekView::Value(v) => v,
            PeekView::List(l) => l.value,
            PeekView::Mapping(m) => m.value,
            PeekView::Struct(s) => s.value,
        }
    }
}

/// Whether the flag bits of a field say that the field holds sensitive data:
/// the lowest bit does.
pub open spec fn sensitive_bits(flags: u64) -> bool {
    flags & 1 == 1
}

impl FieldView {
    /// Whether the field holds sensitive data.
    pub open spec fn sensitive(self) -> bool {
        sensitive_bits(self.flags)
    }
}

/// Whether flags with the bits `flags` contain the sensitive flag.
///
/// Trusted: the body asks `facet_trait::FieldFlags::contains` for
/// `FieldFlags::SENSITIVE`. The contract claims what the declaration of the
/// flags shows: `SENSITIVE` is the lowest bit, and `contains` tests that
/// every bit of its argument is set.
#[verifier::external_body]
fn contains_sensitive(flags: u64) -> (r: bool)
    ensures
        r == sensitive_bits(flags),
{
    facet_trait::FieldFlags::from_bits_retain(flags).contains(facet_trait::FieldFlags::SENSITIVE)
}

impl PeekField {
    /// Whether the field holds sensitive data, which no text may show.
    pub fn is_sensitive(&self) -> (r: bool)
        ensures
            r == self@.sensitive(),
    {
        contains_sensitive(self.flags)
    }
}

impl Peek {
    /// The snapshot as a plain value, without what is particular to its kind.
    pub fn as_value(&self) -> (v: &PeekValue)
        ensures
            v@ == self@.value(),
    {
        match self {
            Peek::Value(v) => v,
            Peek::List(l) => &l.value,
            Peek::Mapping(m) => &m.value,
            Peek::Struct(s) => &s.value,
        }
    }
}

} // verus!

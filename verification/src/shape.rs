//! What a writer knows of a value it has not seen: the kind of the value's
//! type and whether a default can be built in place, and the address of the
//! memory that holds or will hold the value.

use vstd::prelude::*;

verus! {

/// The kind of a type.
#[derive(Clone, Copy, Debug, PartialEq, Eq, Structural)]
pub enum Def {
    /// A value that is not composed of others.
    Scalar,
    /// A struct with the given number of named fields.
    Struct(usize),
    /// A tuple struct with the given number of fields.
    TupleStruct(usize),
    /// A tuple with the given number of fields.
    Tuple(usize),
    /// A list of elements of one type.
    List,
    /// A map from keys to values.
    Mapping,
    /// An enum.
    Enum,
}

/// The description of a type.
#[derive(Clone, Copy, Debug, PartialEq, Eq, Structural)]
pub struct Shape {
    /// The kind of the type.
    pub def: Def,
    /// Whether a default value of the type can be built in place.
    pub default_in_place: bool,
}

impl Shape {
    /// Whether values of this shape are containers, which are built empty
    /// before anything is written to them.
    pub open spec fn is_container(self) -> bool {
        self.def == Def::List || self.def == Def::Mapping
    }
}

/// The address of memory that may not hold a value yet.
#[derive(Clone, Copy, Debug, PartialEq, Eq, Structural)]
pub struct OpaqueUninit {
    pub addr: usize,
}

/// The address of memory that holds a value.
#[derive(Clone, Copy, Debug, PartialEq, Eq, Structural)]
pub struct Opaque {
    pub addr: usize,
}

} // verus!

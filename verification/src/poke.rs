//! Write handles over memory of a known shape that may not hold a value
//! yet.

use crate::iset::ISet;
use crate::shape::{Def, Opaque, OpaqueUninit, Shape};
use vstd::prelude::*;

verus! {

/// A handle to write a scalar, or any value taken as a whole.
#[derive(Clone, Copy)]
pub struct PokeValue {
    pub data: OpaqueUninit,
    pub shape: Shape,
}

/// A handle to fill a list. The list itself has been built, empty.
#[derive(Clone, Copy)]
pub struct PokeList {
    pub data: Opaque,
    pub shape: Shape,
}

/// A handle to fill a map. The map itself has been built, empty.
#[derive(Clone, Copy)]
pub struct PokeMap {
    pub data: Opaque,
    pub shape: Shape,
}

/// A handle to write the fields of a struct, a tuple struct or a tuple one
/// by one. `iset` marks the fields that were written.
#[derive(Clone, Copy)]
pub struct PokeStruct {
    pub data: OpaqueUninit,
    pub shape: Shape,
    pub iset: ISet,
}

/// A handle to write an enum, once one of its variants is chosen.
#[derive(Clone, Copy)]
pub struct PokeEnum {
    pub data: OpaqueUninit,
    pub shape: Shape,
}

/// A handle to write a value of any kind.
#[derive(Clone, Copy)]
pub enum Poke {
    Scalar(PokeValue),
    List(PokeList),
    Mapping(PokeMap),
    Struct(PokeStruct),
    Enum(PokeEnum),
}

impl PokeValue {
    /// Builds the default value of the shape in place. Succeeds, with the
    /// address of what is now a value, exactly when the shape can build a
    /// default; hands the memory back untouched when it cannot.
    pub fn default_in_place(self) -> (r: Result<Opaque, OpaqueUninit>)
        ensures
            r == if self.shape.default_in_place {
                Ok::<Opaque, OpaqueUninit>(Opaque { addr: self.data.addr })
            } else {
                Err::<Opaque, OpaqueUninit>(self.data)
            },
    {
        if self.shape.default_in_place {
            Ok(Opaque { addr: self.data.addr })
        } else {
            Err(self.data)
        }
    }
}

impl Poke {
    /// The handle that [`Poke::from_opaque_uninit`] makes for memory at
    /// `data`, by the kind of `shape`, with no field of a struct written
    /// yet: whether `poke` is that handle.
    pub open spec fn is_fresh(poke: Poke, data: OpaqueUninit, shape: Shape) -> bool {
        match shape.def {
            Def::Struct(_) | Def::TupleStruct(_) | Def::Tuple(_) => {
                &&& poke matches Poke::Struct(s)
                &&& s.data == data
                &&& s.shape == shape
                &&& s.iset@ == Set::<int>::empty()
            },
            Def::Mapping => poke == Poke::Mapping(
                PokeMap { data: Opaque { addr: data.addr }, shape },
            ),
            Def::List => poke == Poke::List(PokeList { data: Opaque { addr: data.addr }, shape }),
            Def::Scalar => poke == Poke::Scalar(PokeValue { data, shape }),
            Def::Enum => poke == Poke::Enum(PokeEnum { data, shape }),
        }
    }

    /// A handle over the memory at `data`, which may not hold a value yet,
    /// for a value of the given shape. A list or a map is first built in
    /// place, empty, so its shape must be able to build a default.
    pub fn from_opaque_uninit(data: OpaqueUninit, shape: Shape) -> (poke: Poke)
        requires
            shape.is_container() ==> shape.default_in_place,
        ensures
            Poke::is_fresh(poke, data, shape),
    {
        match shape.def {
            Def::Struct(_) | Def::TupleStruct(_) | Def::Tuple(_) => Poke::Struct(
                PokeStruct { data, shape, iset: ISet::default() },
            ),
            Def::Mapping => {
                let value = PokeValue { data, shape };
                match value.default_in_place() {
                    Ok(built) => Poke::Mapping(PokeMap { data: built, shape }),
                    Err(_) => vstd::pervasive::unreached(),
                }
            },
            Def::List => {
                let value = PokeValue { data, shape };
                match value.default_in_place() {
                    Ok(built) => Poke::List(PokeList { data: built, shape }),
                    Err(_) => vstd::pervasive::unreached(),
                }
            },
            Def::Scalar => Poke::Scalar(PokeValue { data, shape }),
            Def::Enum => Poke::Enum(PokeEnum { data, shape }),
        }
    }

    /// The handle as one for a struct.
    pub fn into_struct(self) -> (s: PokeStruct)
        requires
            self is Struct,
        ensures
            self == Poke::Struct(s),
    {
        match self {
            Poke::Struct(s) => s,
            _ => vstd::pervasive::unreached(),
        }
    }

    /// The handle as one for a list.
    pub fn into_list(self) -> (l: PokeList)
        requires
            self is List,
        ensures
            self == Poke::List(l),
    {
        match self {
            Poke::List(l) => l,
            _ => vstd::pervasive::unreached(),
        }
    }

    /// The handle as one for a map.
    pub fn into_map(self) -> (m: PokeMap)
        requires
            self is Mapping,
        ensures
            self == Poke::Mapping(m),
    {
        match self {
            Poke::Mapping(m) => m,
            _ => vstd::pervasive::unreached(),
        }
    }

    /// The handle as one for a scalar.
    pub fn into_scalar(self) -> (v: PokeValue)
        requires
            self is Scalar,
        ensures
            self == Poke::Scalar(v),
    {
        match self {
            Poke::Scalar(v) => v,
            _ => vstd::pervasive::unreached(),
        }
    }

    /// The handle as one for an enum.
    pub fn into_enum(self) -> (e: PokeEnum)
        requires
            self is Enum,
        ensures
            self == Poke::Enum(e),
    {
        match self {
            Poke::Enum(e) => e,
            _ => vstd::pervasive::unreached(),
        }
    }
}

} // verus!

use facet_pretty::poke::{Poke, PokeValue};
use facet_pretty::shape::{Def, Opaque, OpaqueUninit, Shape};

fn shape(def: Def, default_in_place: bool) -> Shape {
    Shape {
        def,
        default_in_place,
    }
}

const DATA: OpaqueUninit = OpaqueUninit { addr: 0x4000 };

#[test]
fn struct_like_shapes_resolve_to_struct() {
    for def in [Def::Struct(2), Def::TupleStruct(3), Def::Tuple(0)] {
        for default_in_place in [false, true] {
            let poke = Poke::from_opaque_uninit(DATA, shape(def, default_in_place));
            assert!(matches!(poke, Poke::Struct(_)));
            let s = poke.into_struct();
            assert_eq!(s.data, DATA);
            assert_eq!(s.shape, shape(def, default_in_place));
            assert!(s.iset.all_set(0));
            for index in 0..64 {
                assert!(!s.iset.has(index));
            }
        }
    }
}

#[test]
fn scalar_shape_resolves_to_scalar() {
    let poke = Poke::from_opaque_uninit(DATA, shape(Def::Scalar, false));
    assert!(matches!(poke, Poke::Scalar(_)));
    let v = poke.into_scalar();
    assert_eq!(v.data, DATA);
    assert_eq!(v.shape, shape(Def::Scalar, false));
}

#[test]
fn enum_shape_resolves_to_enum() {
    let poke = Poke::from_opaque_uninit(DATA, shape(Def::Enum, true));
    assert!(matches!(poke, Poke::Enum(_)));
    let e = poke.into_enum();
    assert_eq!(e.data, DATA);
    assert_eq!(e.shape, shape(Def::Enum, true));
}

#[test]
fn list_shape_is_built_in_place() {
    let poke = Poke::from_opaque_uninit(DATA, shape(Def::List, true));
    assert!(matches!(poke, Poke::List(_)));
    let l = poke.into_list();
    assert_eq!(l.data, Opaque { addr: 0x4000 });
    assert_eq!(l.shape, shape(Def::List, true));
}

#[test]
fn map_shape_is_built_in_place() {
    let poke = Poke::from_opaque_uninit(DATA, shape(Def::Mapping, true));
    assert!(matches!(poke, Poke::Mapping(_)));
    let m = poke.into_map();
    assert_eq!(m.data, Opaque { addr: 0x4000 });
    assert_eq!(m.shape, shape(Def::Mapping, true));
}

#[test]
fn default_in_place_needs_the_capability() {
    let able = PokeValue {
        data: DATA,
        shape: shape(Def::Scalar, true),
    };
    assert_eq!(able.default_in_place(), Ok(Opaque { addr: 0x4000 }));
    let unable = PokeValue {
        data: DATA,
        shape: shape(Def::List, false),
    };
    assert_eq!(unable.default_in_place(), Err(DATA));
}

#[test]
fn struct_handle_tracks_written_fields() {
    let mut s = Poke::from_opaque_uninit(DATA, shape(Def::Struct(3), false)).into_struct();
    assert!(!s.iset.all_set(3));
    s.iset.set(0);
    s.iset.set(2);
    assert!(!s.iset.all_set(3));
    s.iset.set(1);
    assert!(s.iset.all_set(3));
}

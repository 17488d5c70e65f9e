use facet_pretty::color::ColorGenerator;
use facet_pretty::peek::{Peek, PeekField, PeekList, PeekMap, PeekStruct, PeekValue};
use facet_pretty::printer::PrettyPrinter;
use std::collections::HashMap;

fn value(data: usize, name: &str) -> PeekValue {
    PeekValue {
        data,
        shape_name: name.to_string(),
        shape_hash: 0,
        display: None,
        debug: None,
    }
}

fn scalar(data: usize, name: &str, text: &str) -> Peek {
    Peek::Value(PeekValue {
        display: Some(text.to_string()),
        ..value(data, name)
    })
}

fn field(name: &str, value: Peek) -> PeekField {
    PeekField {
        name: name.to_string(),
        flags: 0,
        value,
    }
}

fn secret(name: &str, value: Peek) -> PeekField {
    PeekField {
        name: name.to_string(),
        flags: facet_trait::FieldFlags::SENSITIVE.bits(),
        value,
    }
}

fn record(data: usize, name: &str, fields: Vec<PeekField>) -> Peek {
    Peek::Struct(PeekStruct {
        value: value(data, name),
        fields,
    })
}

fn list(data: usize, name: &str, items: Vec<Peek>) -> Peek {
    Peek::List(PeekList {
        value: value(data, name),
        items,
    })
}

fn plain() -> PrettyPrinter {
    PrettyPrinter::new().with_colors(false)
}

#[test]
fn test_pretty_printer_default() {
    let printer = PrettyPrinter::default();
    assert_eq!(printer.indent_size(), 2);
    assert_eq!(printer.max_depth(), None);
    assert!(printer.use_colors());
}

#[test]
fn test_pretty_printer_with_methods() {
    let printer = PrettyPrinter::new()
        .with_indent_size(4)
        .with_max_depth(3)
        .with_colors(false);

    assert_eq!(printer.indent_size(), 4);
    assert_eq!(printer.max_depth(), Some(3));
    assert!(!printer.use_colors());
}

#[test]
fn builders_read_back_and_commute() {
    let a = PrettyPrinter::new().with_indent_size(7).with_max_depth(1);
    let b = PrettyPrinter::new().with_max_depth(1).with_indent_size(7);
    assert_eq!(a.indent_size(), 7);
    assert_eq!(a.indent_size(), b.indent_size());
    assert_eq!(a.max_depth(), b.max_depth());
    assert_eq!(a.use_colors(), b.use_colors());
    let c = PrettyPrinter::new().with_indent_size(3).with_indent_size(5);
    assert_eq!(c.indent_size(), 5);
    let tinted = PrettyPrinter::new()
        .with_color_generator(ColorGenerator::new().with_base_hue(0).with_saturation(100).with_lightness(50));
    assert_eq!(tinted.color_generator().generate_color(0).r, 255);
    assert_eq!(tinted.indent_size(), 2);
}

#[test]
fn scalar_renders_its_display_text() {
    assert_eq!(plain().format_peek(&scalar(0x10, "i32", "42")), "42");
}

#[test]
fn scalar_falls_back_to_debug_text() {
    let peek = Peek::Value(PeekValue {
        debug: Some("\"hi\"".to_string()),
        ..value(0x10, "String")
    });
    assert_eq!(plain().format_peek(&peek), "\"hi\"");
}

#[test]
fn scalar_prefers_display_over_debug() {
    let peek = Peek::Value(PeekValue {
        display: Some("hi".to_string()),
        debug: Some("\"hi\"".to_string()),
        ..value(0x10, "String")
    });
    assert_eq!(plain().format_peek(&peek), "hi");
}

#[test]
fn scalar_without_capabilities_renders_type_name_and_placeholder() {
    let peek = Peek::Value(value(0x10, "Opaque"));
    assert_eq!(plain().format_peek(&peek), "Opaque(⋯)");
    assert_eq!(
        PrettyPrinter::new().format_peek(&peek),
        "\x1b[38;2;81;153;224mOpaque(⋯)\x1b[0m"
    );
}

#[test]
fn struct_fields_in_declaration_order_with_trailing_commas() {
    let peek = record(
        0x100,
        "Pair",
        vec![
            field("a", scalar(0x100, "i32", "1")),
            field("b", scalar(0x108, "String", "x")),
        ],
    );
    let out = plain().format_peek(&peek);
    assert_eq!(out, "Pair {\n    a: 1,\n    b: x,\n}");
    assert!(out.find("a: ").unwrap() < out.find("b: ").unwrap());
}

#[test]
fn empty_struct_renders_on_one_line() {
    let peek = record(0x100, "Unit", vec![]);
    assert_eq!(plain().format_peek(&peek), "Unit { }");
    assert_eq!(
        PrettyPrinter::new().format_peek(&peek),
        "\x1b[1mUnit\x1b[0m\x1b[2m {\x1b[0m\x1b[2m }\x1b[0m"
    );
}

#[test]
fn nested_struct_indents_by_two_levels_per_nesting() {
    let inner = record(0x108, "Inner", vec![field("x", scalar(0x108, "u8", "7"))]);
    let peek = record(0x100, "Outer", vec![field("inner", inner)]);
    assert_eq!(
        plain().format_peek(&peek),
        "Outer {\n    inner: Inner {\n        x: 7,\n    },\n}"
    );
    assert_eq!(
        plain().with_indent_size(1).format_peek(&peek),
        "Outer {\n  inner: Inner {\n    x: 7,\n  },\n}"
    );
    assert_eq!(
        plain().with_indent_size(0).format_peek(&peek),
        "Outer {\ninner: Inner {\nx: 7,\n},\n}"
    );
}

#[test]
fn list_separates_elements_and_closes_at_its_own_depth() {
    let peek = list(
        0x200,
        "Vec<i32>",
        vec![
            scalar(0x300, "i32", "1"),
            scalar(0x304, "i32", "2"),
            scalar(0x308, "i32", "3"),
        ],
    );
    let out = plain().format_peek(&peek);
    assert_eq!(out, "Vec<i32> [\n    1,\n    2,\n    3\n  ]");
    assert_eq!(out.matches(',').count(), 2);
    assert_eq!(out.matches(']').count(), 1);
}

#[test]
fn list_of_one_and_of_none() {
    let one = list(0x200, "Vec<i32>", vec![scalar(0x300, "i32", "1")]);
    assert_eq!(plain().format_peek(&one), "Vec<i32> [\n    1\n  ]");
    let none = list(0x200, "Vec<i32>", vec![]);
    assert_eq!(plain().format_peek(&none), "Vec<i32> [\n  ]");
}

#[test]
fn map_renders_a_placeholder() {
    let peek = Peek::Mapping(PeekMap {
        value: value(0x400, "HashMap<String, i32>"),
    });
    assert_eq!(
        plain().format_peek(&peek),
        "HashMap<String, i32> {\n    /* Map contents */\n  }"
    );
}

#[test]
fn sensitive_field_is_redacted_whatever_it_holds() {
    let deep = record(
        0x108,
        "Keys",
        vec![field("private", scalar(0x108, "String", "hunter2"))],
    );
    let with_struct = record(
        0x100,
        "Account",
        vec![field("user", scalar(0x100, "String", "amos")), secret("password", deep)],
    );
    let with_scalar = record(
        0x100,
        "Account",
        vec![
            field("user", scalar(0x100, "String", "amos")),
            secret("password", scalar(0x108, "String", "hunter2")),
        ],
    );
    let expected = "Account {\n    user: amos,\n    password: [REDACTED],\n}";
    let a = plain().format_peek(&with_struct);
    let b = plain().format_peek(&with_scalar);
    assert_eq!(a, expected);
    assert_eq!(b, expected);
    assert!(!a.contains("hunter2"));
    assert!(!a.contains("private"));
}

#[test]
fn sensitive_field_is_redacted_below_the_depth_limit_and_at_a_cycle() {
    let peek = record(
        0x100,
        "Account",
        vec![secret("password", record(0x100, "Account", vec![]))],
    );
    assert_eq!(
        plain().with_max_depth(0).format_peek(&peek),
        "Account {\n    password: [REDACTED],\n}"
    );
    assert_eq!(
        PrettyPrinter::new().with_max_depth(0).style_redacted("[REDACTED]"),
        "\x1b[38;2;224;49;49m\x1b[1m[REDACTED]\x1b[0m"
    );
}

#[test]
fn unflagged_bits_do_not_redact() {
    let peek = record(
        0x100,
        "Account",
        vec![PeekField {
            name: "user".to_string(),
            flags: 2,
            value: scalar(0x100, "String", "amos"),
        }],
    );
    assert_eq!(plain().format_peek(&peek), "Account {\n    user: amos,\n}");
    let both = record(
        0x100,
        "Account",
        vec![PeekField {
            name: "user".to_string(),
            flags: 3,
            value: scalar(0x100, "String", "amos"),
        }],
    );
    assert_eq!(plain().format_peek(&both), "Account {\n    user: [REDACTED],\n}");
}

#[test]
fn depth_limit_truncates_what_lies_below() {
    let leaf = record(0x110, "C", vec![field("deepest", scalar(0x110, "u8", "9"))]);
    let mid = record(0x108, "B", vec![field("c", leaf)]);
    let top = record(0x100, "A", vec![field("b", mid)]);
    assert_eq!(
        plain().format_peek(&top),
        "A {\n    b: B {\n        c: C {\n            deepest: 9,\n        },\n    },\n}"
    );
    let cut = plain().with_max_depth(3).format_peek(&top);
    assert_eq!(cut, "A {\n    b: B {\n        c: [...,\n    },\n}");
    assert!(!cut.contains("deepest"));
    let cut = plain().with_max_depth(2).format_peek(&top);
    assert_eq!(cut, "A {\n    b: B {\n        c: [...,\n    },\n}");
    let cut = plain().with_max_depth(1).format_peek(&top);
    assert_eq!(cut, "A {\n    b: [...,\n}");
    let cut = plain().with_max_depth(0).format_peek(&top);
    assert_eq!(cut, "A {\n    b: [...,\n}");
    assert_eq!(
        PrettyPrinter::new().with_max_depth(0).format_peek(&scalar(1, "u8", "9")),
        "\x1b[38;2;81;153;224m9\x1b[0m"
    );
}

#[test]
fn depth_marker_when_started_below_the_limit() {
    let mut out = String::from(">");
    let mut visited = HashMap::new();
    PrettyPrinter::new().with_max_depth(1).format_peek_internal(
        &scalar(0x10, "u8", "9"),
        &mut out,
        2,
        0,
        &mut visited,
    );
    assert_eq!(out, ">\x1b[2m[\x1b[0m...");
    assert!(visited.is_empty());
}

#[test]
fn wrapper_at_the_same_address_is_no_cycle() {
    let peek = record(
        0x100,
        "Meters",
        vec![field(
            "0",
            record(
                0x100,
                "Inner",
                vec![field("0", record(0x100, "Innermost", vec![field("0", scalar(0x100, "f64", "1.5"))]))],
            ),
        )],
    );
    let out = plain().format_peek(&peek);
    assert!(!out.contains("cycle detected"));
    assert!(out.contains("0: 1.5,"));
}

#[test]
fn alias_one_type_depth_below_is_no_cycle() {
    // `shared` is first seen at type depth 1, and met again at type depth 2.
    let peek = record(
        0x100,
        "Root",
        vec![
            field("first", scalar(0x200, "u8", "1")),
            field(
                "second",
                record(0x300, "Holder", vec![field("again", scalar(0x200, "u8", "1"))]),
            ),
        ],
    );
    assert_eq!(
        plain().format_peek(&peek),
        "Root {\n    first: 1,\n    second: Holder {\n        again: 1,\n    },\n}"
    );
}

#[test]
fn back_edge_two_type_depths_below_is_a_cycle() {
    // `Node` at 0x100 is first seen at type depth 0, and met again at type depth 2.
    let peek = record(
        0x100,
        "Node",
        vec![field(
            "next",
            record(
                0x200,
                "Node",
                vec![field(
                    "next",
                    record(0x100, "Node", vec![field("next", scalar(0x999, "u8", "0"))]),
                )],
            ),
        )],
    );
    assert_eq!(
        plain().format_peek(&peek),
        "Node {\n    next: Node {\n        next: Node { /* cycle detected at 0x100 (first seen at type_depth 0) */ },\n    },\n}"
    );
}

#[test]
fn cycle_marker_names_address_and_depth() {
    let mut visited = HashMap::new();
    visited.insert(0xdead_beef_usize, 12);
    let mut out = String::new();
    let peek = scalar(0xdead_beef, "u8", "0");
    plain().format_peek_internal(&peek, &mut out, 0, 14, &mut visited);
    assert_eq!(
        out,
        "u8 { /* cycle detected at 0xdeadbeef (first seen at type_depth 12) */ }"
    );
    assert_eq!(visited.len(), 1);
    let mut out = String::new();
    plain().format_peek_internal(&peek, &mut out, 0, 13, &mut visited);
    assert_eq!(out, "0");
    assert_eq!(visited.get(&0xdead_beef), Some(&12));
    let mut out = String::new();
    PrettyPrinter::new().format_peek_internal(&peek, &mut out, 0, 14, &mut visited);
    assert_eq!(
        out,
        "\x1b[1mu8\x1b[0m\x1b[2m { \x1b[0m\x1b[2m/* cycle detected at 0xdeadbeef (first seen at type_depth 12) */\x1b[0m\x1b[2m }\x1b[0m"
    );
}

#[test]
fn first_visit_records_the_type_depth() {
    let mut visited = HashMap::new();
    let mut out = String::new();
    let peek = list(0x200, "Vec<u8>", vec![scalar(0x300, "u8", "1"), scalar(0x200, "u8", "2")]);
    plain().format_peek_internal(&peek, &mut out, 0, 5, &mut visited);
    assert_eq!(visited.get(&0x200), Some(&5));
    assert_eq!(visited.get(&0x300), Some(&6));
    assert_eq!(visited.len(), 2);
}

#[test]
fn colours_wrap_every_fragment() {
    let peek = record(0x100, "P", vec![field("a", scalar(0x100, "i32", "1"))]);
    assert_eq!(
        PrettyPrinter::new().format_peek(&peek),
        "\x1b[1mP\x1b[0m\x1b[2m {\x1b[0m\n    \x1b[38;2;114;160;193ma\x1b[0m\x1b[2m: \x1b[0m\x1b[38;2;81;153;224m1\x1b[0m\x1b[2m,\x1b[0m\n\x1b[2m}\x1b[0m"
    );
}

fn strip(text: &str) -> String {
    let mut out = String::new();
    let mut inside = false;
    for c in text.chars() {
        if inside {
            inside = c != 'm';
        } else if c == '\x1b' {
            inside = true;
        } else {
            out.push(c);
        }
    }
    out
}

#[test]
fn plain_output_is_coloured_output_without_the_style_commands() {
    let peek = record(
        0x100,
        "Config",
        vec![
            field("name", scalar(0x100, "String", "demo")),
            secret("token", scalar(0x118, "String", "s3cr3t")),
            field(
                "ports",
                list(0x130, "Vec<u16>", vec![scalar(0x500, "u16", "80"), scalar(0x502, "u16", "443")]),
            ),
            field("env", Peek::Mapping(PeekMap { value: value(0x148, "HashMap<String, String>") })),
            field("again", record(0x100, "Config", vec![])),
        ],
    );
    for depth in [None, Some(0), Some(2), Some(4)] {
        let mut coloured = PrettyPrinter::new();
        let mut bare = plain();
        if let Some(depth) = depth {
            coloured = coloured.with_max_depth(depth);
            bare = bare.with_max_depth(depth);
        }
        let with = coloured.format_peek(&peek);
        let without = bare.format_peek(&peek);
        assert!(!without.contains('\x1b'));
        assert!(with.contains('\x1b'));
        assert_eq!(strip(&with), without);
    }
}

#[test]
fn style_helpers() {
    let on = PrettyPrinter::new();
    let off = plain();
    assert_eq!(on.style_punctuation("}"), "\x1b[2m}\x1b[0m");
    assert_eq!(off.style_punctuation("}"), "}");
    assert_eq!(on.style_comment("/* c */"), "\x1b[2m/* c */\x1b[0m");
    assert_eq!(off.style_comment("/* c */"), "/* c */");
    assert_eq!(off.style_redacted("[REDACTED]"), "[REDACTED]");
    assert_eq!(on.style_shape_name(&value(1, "Vec<u8>")), "\x1b[1mVec<u8>\x1b[0m");
    assert_eq!(off.style_shape_name(&value(1, "Vec<u8>")), "Vec<u8>");
    let mut out = String::from("x");
    on.write_field_name(&mut out, "id");
    off.write_field_name(&mut out, "id");
    assert_eq!(out, "x\x1b[38;2;114;160;193mid\x1b[0mid");
}

#[test]
fn struct_started_at_the_top_closes_at_the_margin() {
    let s = PeekStruct {
        value: value(0x100, "P"),
        fields: vec![field("a", scalar(0x100, "i32", "1"))],
    };
    let mut visited = HashMap::new();
    let mut out = String::new();
    plain().format_struct(&s, &mut out, 0, 0, &mut visited);
    assert_eq!(out, "P {\n  a: 1,\n}");
    let mut out = String::new();
    plain().format_struct(&s, &mut out, 1, 0, &mut visited);
    assert_eq!(out, "P {\n    a: 1,\n}");
    let mut out = String::new();
    plain().format_struct(&s, &mut out, 2, 0, &mut visited);
    assert_eq!(out, "P {\n      a: 1,\n  }");
}

#[test]
fn list_and_map_at_a_given_depth() {
    let l = PeekList {
        value: value(0x200, "Vec<u8>"),
        items: vec![scalar(0x300, "u8", "1")],
    };
    let mut visited = HashMap::new();
    let mut out = String::new();
    plain().format_list(&l, &mut out, 0, 0, &mut visited);
    assert_eq!(out, "Vec<u8> [\n  1\n]");
    assert_eq!(visited.get(&0x300), Some(&1));
    let m = PeekMap {
        value: value(0x400, "HashMap<u8, u8>"),
    };
    let mut out = String::new();
    plain().with_indent_size(1).format_map(&m, &mut out, 2);
    assert_eq!(out, "HashMap<u8, u8> {\n   /* Map contents */\n  }");
    let mut out = String::new();
    PrettyPrinter::new().format_map(&m, &mut out, 0);
    assert_eq!(
        out,
        "\x1b[1mHashMap<u8, u8>\x1b[0m\x1b[2m {\x1b[0m\n  \x1b[2m/* Map contents */\x1b[0m\n\x1b[2m}\x1b[0m"
    );
}

#[test]
fn value_takes_the_colour_of_its_shape() {
    let mut first = value(0x10, "u8");
    first.display = Some("1".to_string());
    first.shape_hash = 150;
    let mut out = String::new();
    PrettyPrinter::new().format_value(&first, &mut out);
    assert_eq!(out, "\x1b[38;2;224;81;81m1\x1b[0m");
    let grey = ColorGenerator::new().with_saturation(0).with_lightness(50);
    let mut out = String::new();
    PrettyPrinter::new()
        .with_color_generator(grey)
        .format_value(&first, &mut out);
    assert_eq!(out, "\x1b[38;2;127;127;127m1\x1b[0m");
    let mut out = String::from("=");
    plain().format_value(&first, &mut out);
    assert_eq!(out, "=1");
}

#[test]
fn snapshot_as_value() {
    let peek = record(0x100, "Pair", vec![]);
    assert_eq!(peek.as_value().data, 0x100);
    assert_eq!(peek.as_value().shape_name, "Pair");
    let peek = list(0x200, "Vec<u8>", vec![]);
    assert_eq!(peek.as_value().data, 0x200);
    let peek = scalar(0x300, "u8", "1");
    assert_eq!(peek.as_value().display.as_deref(), Some("1"));
    let peek = Peek::Mapping(PeekMap { value: value(0x400, "M") });
    assert_eq!(peek.as_value().shape_name, "M");
}

#[test]
fn sensitive_flag_is_the_lowest_bit() {
    for (flags, sensitive) in [(0u64, false), (1, true), (2, false), (3, true), (u64::MAX, true), (u64::MAX - 1, false)] {
        let f = PeekField {
            name: "f".to_string(),
            flags,
            value: scalar(1, "u8", "1"),
        };
        assert_eq!(f.is_sensitive(), sensitive);
    }
    assert!(secret("s", scalar(1, "u8", "1")).is_sensitive());
    assert!(!field("s", scalar(1, "u8", "1")).is_sensitive());
}

#[test]
fn list_commas_are_those_of_its_elements_and_the_separators() {
    let peek = list(
        0x200,
        "Vec<(u8, u8)>",
        vec![
            scalar(0x300, "(u8, u8)", "(1, 2)"),
            scalar(0x302, "(u8, u8)", "(3, 4)"),
            scalar(0x304, "(u8, u8)", "(5, 6)"),
            scalar(0x306, "(u8, u8)", "(7, 8)"),
        ],
    );
    let out = PrettyPrinter::new().format_peek(&peek);
    assert_eq!(out.matches(',').count(), 1 + 4 + 3);
    assert!(out.ends_with("  \x1b[2m]\x1b[0m"));
}

#[test]
fn first_seen_depth_is_never_overwritten() {
    let mut visited = HashMap::new();
    visited.insert(0x300usize, 0usize);
    visited.insert(0x999usize, 42usize);
    let peek = list(0x200, "Vec<u8>", vec![scalar(0x300, "u8", "1"), scalar(0x301, "u8", "2")]);
    let mut out = String::new();
    plain().format_peek_internal(&peek, &mut out, 0, 0, &mut visited);
    assert_eq!(out, "Vec<u8> [\n    1,\n    2\n  ]");
    assert_eq!(visited.get(&0x300), Some(&0));
    assert_eq!(visited.get(&0x999), Some(&42));
    assert_eq!(visited.get(&0x200), Some(&0));
    assert_eq!(visited.get(&0x301), Some(&1));
    assert_eq!(visited.len(), 4);
}

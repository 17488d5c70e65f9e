//! Text without its style commands.
//!
//! A style command starts at an escape character and ends with the next
//! `m`. Removing the commands from what a printer with colours writes
//! leaves what the same printer writes without colours.

use crate::ansi::{bold_code, dim_code, reset_code, rgb_code};
use crate::color::shade;
use crate::peek::{FieldView, ListView, MapView, PeekView, StructView, ValueView};
use crate::render::{
    child_type_depth, closes_cycle, cycle_comment, cycle_marker, deeper, depth_marker,
    exceeds_depth, item_separator, record_visit, redaction_token, render, render_field,
    render_fields, render_items, render_list, render_map, render_peek, render_struct,
    render_variant, shallower, styled_comment, styled_field_name, styled_punctuation,
    styled_redacted, styled_shape_name, styled_value, value_text, PrinterView,
};
use crate::text::{
    decimal, hexadecimal, indentation, lacks, lemma_decimal_digits, lemma_hexadecimal_digits,
    lemma_lacks_concat, pointer_text,
};
use vstd::prelude::*;

verus! {

/// The character that starts a style command.
pub open spec fn escape() -> char {
    '\x1b'
}

/// `text` without its style commands, read from inside a command if
/// `inside` holds and from outside one if not.
pub open spec fn strip_from(text: Seq<char>, inside: bool) -> Seq<char>
    decreases text.len(),
{
    if text.len() == 0 {
        Seq::empty()
    } else if inside {
        strip_from(text.drop_first(), text[0] != 'm')
    } else if text[0] == escape() {
        strip_from(text.drop_first(), true)
    } else {
        seq![text[0]] + strip_from(text.drop_first(), false)
    }
}

/// Whether a reader of `text` that starts inside a command if `inside`
/// holds, and outside one if not, ends inside a command.
pub open spec fn inside_after(text: Seq<char>, inside: bool) -> bool
    decreases text.len(),
{
    if text.len() == 0 {
        inside
    } else if inside {
        inside_after(text.drop_first(), text[0] != 'm')
    } else {
        inside_after(text.drop_first(), text[0] == escape())
    }
}

/// `text` without its style commands.
pub open spec fn strip_styles(text: Seq<char>) -> Seq<char> {
    strip_from(text, false)
}

/// Whether `text` holds no escape character, and so no style command.
pub open spec fn has_no_escape(text: Seq<char>) -> bool {
    lacks(text, escape())
}

/// Whether `colored` is made of whole style commands and of text without
/// escape characters, and `bare` is that text.
pub open spec fn strips_to(colored: Seq<char>, bare: Seq<char>) -> bool {
    &&& strip_from(colored, false) == bare
    &&& !inside_after(colored, false)
    &&& has_no_escape(bare)
}

/// Reading two texts one after the other is reading the first, then the
/// second from where the first ended.
pub proof fn lemma_strip_concat(a: Seq<char>, b: Seq<char>, inside: bool)
    ensures
        strip_from(a + b, inside) == strip_from(a, inside) + strip_from(
            b,
            inside_after(a, inside),
        ),
        inside_after(a + b, inside) == inside_after(b, inside_after(a, inside)),
    decreases a.len(),
{
    if a.len() == 0 {
        assert(a + b =~= b);
        assert(strip_from(a, inside) + strip_from(b, inside) =~= strip_from(b, inside));
    } else {
        assert((a + b).drop_first() =~= a.drop_first() + b);
        assert((a + b)[0] == a[0]);
        if inside {
            lemma_strip_concat(a.drop_first(), b, a[0] != 'm');
        } else if a[0] == escape() {
            lemma_strip_concat(a.drop_first(), b, true);
        } else {
            lemma_strip_concat(a.drop_first(), b, false);
            let tail = strip_from(a.drop_first(), false);
            let rest = strip_from(b, inside_after(a.drop_first(), false));
            assert(seq![a[0]] + (tail + rest) =~= (seq![a[0]] + tail) + rest);
        }
    }
}

/// Text without an escape character holds no command: stripping leaves it
/// as it is.
pub proof fn lemma_strip_bare(text: Seq<char>)
    requires
        has_no_escape(text),
    ensures
        strips_to(text, text),
    decreases text.len(),
{
    if text.len() == 0 {
        assert(strip_from(text, false) =~= text);
    } else {
        let rest = text.drop_first();
        assert forall|i: int| 0 <= i < rest.len() implies rest[i] != escape() by {
            assert(rest[i] == text[i + 1]);
        }
        lemma_strip_bare(rest);
        assert(text[0] != escape());
        assert(seq![text[0]] + rest =~= text);
    }
}

/// Inside a command, text without an `m` is part of the command.
pub proof fn lemma_strip_inside(text: Seq<char>)
    requires
        lacks(text, 'm'),
    ensures
        strip_from(text, true) == Seq::<char>::empty(),
        inside_after(text, true),
    decreases text.len(),
{
    if text.len() > 0 {
        let rest = text.drop_first();
        assert forall|i: int| 0 <= i < rest.len() implies rest[i] != 'm' by {
            assert(rest[i] == text[i + 1]);
        }
        assert(text[0] != 'm');
        lemma_strip_inside(rest);
    }
}

/// The texts of two pieces, stripped, are the stripped text of the pieces
/// put together.
pub proof fn lemma_strips_concat(a: Seq<char>, bare_a: Seq<char>, b: Seq<char>, bare_b: Seq<char>)
    requires
        strips_to(a, bare_a),
        strips_to(b, bare_b),
    ensures
        strips_to(a + b, bare_a + bare_b),
{
    lemma_strip_concat(a, b, false);
    assert forall|i: int| 0 <= i < (bare_a + bare_b).len() implies (bare_a + bare_b)[i]
        != escape() by {
        if i < bare_a.len() {
            assert((bare_a + bare_b)[i] == bare_a[i]);
        } else {
            assert((bare_a + bare_b)[i] == bare_b[i - bare_a.len()]);
        }
    }
}

/// The reset, bold and dim commands are whole commands: stripped, nothing
/// is left of them.
pub proof fn lemma_strip_simple_codes()
    ensures
        strips_to(reset_code(), Seq::empty()),
        strips_to(bold_code(), Seq::empty()),
        strips_to(dim_code(), Seq::empty()),
{
    reveal_strlit("\x1b[0m");
    reveal_strlit("\x1b[1m");
    reveal_strlit("\x1b[2m");
    lemma_whole_command(reset_code());
    lemma_whole_command(bold_code());
    lemma_whole_command(dim_code());
}

/// A text that starts with an escape character, ends with an `m` and has
/// no other `m` is one whole command.
proof fn lemma_whole_command(code: Seq<char>)
    requires
        code.len() >= 2,
        code[0] == escape(),
        code.last() == 'm',
        forall|i: int| 0 < i < code.len() - 1 ==> code[i] != 'm',
    ensures
        strips_to(code, Seq::empty()),
{
    reveal_with_fuel(strip_from, 3);
    reveal_with_fuel(inside_after, 3);
    let body = code.subrange(1, code.len() - 1);
    let end = seq!['m'];
    assert(code =~= seq![escape()] + body + end);
    assert forall|i: int| 0 <= i < body.len() implies body[i] != 'm' by {
        assert(body[i] == code[i + 1]);
    }
    lemma_strip_inside(body);
    lemma_strip_concat(seq![escape()], body, false);
    lemma_strip_concat(seq![escape()] + body, end, false);
    assert(seq![escape()].drop_first() =~= Seq::<char>::empty());
    assert(end.drop_first() =~= Seq::<char>::empty());
    assert(strip_from(seq![escape()], false) =~= Seq::<char>::empty());
    assert(inside_after(seq![escape()], false));
    assert(strip_from(end, true) =~= Seq::<char>::empty());
    assert(!inside_after(end, true));
    assert(strip_from(code, false) =~= Seq::<char>::empty());
}

/// The command that sets the foreground colour is a whole command.
pub proof fn lemma_strip_rgb_code(r: u8, g: u8, b: u8)
    ensures
        strips_to(rgb_code(r, g, b), Seq::empty()),
{
    reveal_strlit("\x1b[38;2;");
    reveal_strlit(";");
    reveal_strlit("m");
    lemma_decimal_digits(r as nat);
    lemma_decimal_digits(g as nat);
    lemma_decimal_digits(b as nat);
    let code = rgb_code(r, g, b);
    let open = "\x1b[38;2;"@;
    let red = decimal(r as nat);
    let green = decimal(g as nat);
    let blue = decimal(b as nat);
    let sep = ";"@;
    let body = open.drop_first() + red + sep + green + sep + blue;
    assert(lacks(open.drop_first(), 'm'));
    assert(lacks(red, 'm'));
    assert(lacks(green, 'm'));
    assert(lacks(blue, 'm'));
    assert(lacks(sep, 'm'));
    lemma_lacks_concat(open.drop_first(), red, 'm');
    lemma_lacks_concat(open.drop_first() + red, sep, 'm');
    lemma_lacks_concat(open.drop_first() + red + sep, green, 'm');
    lemma_lacks_concat(open.drop_first() + red + sep + green, sep, 'm');
    lemma_lacks_concat(open.drop_first() + red + sep + green + sep, blue, 'm');
    assert(code =~= seq![escape()] + body + seq!['m']);
    assert(code.len() >= 2);
    assert(code[0] == escape());
    assert(code.last() == 'm');
    assert forall|i: int| 0 < i < code.len() - 1 implies code[i] != 'm' by {
        assert(code[i] == body[i - 1]);
    }
    lemma_whole_command(code);
}

/// A run of spaces holds no escape character.
proof fn lemma_indentation_bare(levels: nat, size: nat)
    ensures
        strips_to(indentation(levels, size), indentation(levels, size)),
{
    lemma_strip_bare(indentation(levels, size));
}

/// Text between a command that starts a style and the reset that ends it
/// is what is left when both are stripped.
proof fn lemma_strip_wrapped(start: Seq<char>, text: Seq<char>)
    requires
        strips_to(start, Seq::empty()),
        has_no_escape(text),
    ensures
        strips_to(start + text + reset_code(), text),
{
    lemma_strip_simple_codes();
    lemma_strip_bare(text);
    lemma_strips_concat(start, Seq::empty(), text, text);
    lemma_strips_concat(start + text, Seq::<char>::empty() + text, reset_code(), Seq::empty());
    assert(Seq::<char>::empty() + text + Seq::<char>::empty() =~= text);
}

/// Whether the name and the texts of a value hold no escape character.
pub open spec fn value_is_bare(value: ValueView) -> bool {
    &&& has_no_escape(value.shape_name)
    &&& value.display matches Some(text) ==> has_no_escape(text)
    &&& value.debug matches Some(text) ==> has_no_escape(text)
}

/// Whether no name and no text anywhere in a snapshot holds an escape
/// character.
pub open spec fn peek_is_bare(peek: PeekView) -> bool
    decreases peek,
{
    match peek {
        PeekView::Value(v) => value_is_bare(v),
        PeekView::Mapping(m) => value_is_bare(m.value),
        PeekView::List(l) => {
            &&& value_is_bare(l.value)
            &&& forall|i: int| 0 <= i < l.items.len() ==> peek_is_bare(#[trigger] l.items[i])
        },
        PeekView::Struct(s) => {
            &&& value_is_bare(s.value)
            &&& forall|i: int|
                0 <= i < s.fields.len() ==> has_no_escape((#[trigger] s.fields[i]).name)
                    && peek_is_bare(s.fields[i].value)
        },
    }
}

/// The words and signs that the printer writes of its own hold no escape
/// character.
proof fn lemma_signs_bare()
    ensures
        has_no_escape(" {"@),
        has_no_escape(" }"@),
        has_no_escape("}"@),
        has_no_escape(" ["@),
        has_no_escape("]"@),
        has_no_escape("["@),
        has_no_escape("..."@),
        has_no_escape(": "@),
        has_no_escape(","@),
        has_no_escape("\n"@),
        has_no_escape(" { "@),
        has_no_escape("(⋯)"@),
        has_no_escape(redaction_token()),
        has_no_escape("/* Map contents */"@),
{
    reveal_strlit(" {");
    reveal_strlit(" }");
    reveal_strlit("}");
    reveal_strlit(" [");
    reveal_strlit("]");
    reveal_strlit("[");
    reveal_strlit("...");
    reveal_strlit(": ");
    reveal_strlit(",");
    reveal_strlit("\n");
    reveal_strlit(" { ");
    reveal_strlit("(⋯)");
    reveal_strlit("[REDACTED]");
    reveal_strlit("/* Map contents */");
}

/// The comment of a cycle marker holds no escape character.
proof fn lemma_cycle_comment_bare(addr: usize, first_seen: usize)
    ensures
        has_no_escape(cycle_comment(addr, first_seen)),
{
    reveal_strlit("/* cycle detected at ");
    reveal_strlit("0x");
    reveal_strlit(" (first seen at type_depth ");
    reveal_strlit(") */");
    lemma_hexadecimal_digits(addr as nat);
    lemma_decimal_digits(first_seen as nat);
    let a = "/* cycle detected at "@;
    let b = pointer_text(addr as nat);
    let c = " (first seen at type_depth "@;
    let d = decimal(first_seen as nat);
    let e = ") */"@;
    assert(has_no_escape(a));
    assert(has_no_escape("0x"@));
    assert(has_no_escape(hexadecimal(addr as nat)));
    lemma_lacks_concat("0x"@, hexadecimal(addr as nat), escape());
    assert(has_no_escape(c));
    assert(has_no_escape(d));
    assert(has_no_escape(e));
    lemma_lacks_concat(a, b, escape());
    lemma_lacks_concat(a + b, c, escape());
    lemma_lacks_concat(a + b + c, d, escape());
    lemma_lacks_concat(a + b + c + d, e, escape());
}

/// Every styled fragment, stripped, is the fragment as it is written
/// without colours.
proof fn lemma_strip_styled(cfg: PrinterView, text: Seq<char>)
    requires
        has_no_escape(text),
    ensures
        strips_to(styled_shape_name(cfg, text), styled_shape_name(cfg.with_colors(false), text)),
        strips_to(styled_field_name(cfg, text), styled_field_name(cfg.with_colors(false), text)),
        strips_to(styled_punctuation(cfg, text), styled_punctuation(cfg.with_colors(false), text)),
        strips_to(styled_comment(cfg, text), styled_comment(cfg.with_colors(false), text)),
        strips_to(styled_redacted(cfg, text), styled_redacted(cfg.with_colors(false), text)),
{
    if cfg.use_colors {
        lemma_strip_simple_codes();
        lemma_strip_rgb_code(114, 160, 193);
        lemma_strip_rgb_code(224, 49, 49);
        lemma_strip_wrapped(bold_code(), text);
        lemma_strip_wrapped(dim_code(), text);
        lemma_strip_wrapped(rgb_code(114, 160, 193), text);
        lemma_strips_concat(rgb_code(224, 49, 49), Seq::empty(), bold_code(), Seq::empty());
        assert(Seq::<char>::empty() + Seq::<char>::empty() =~= Seq::<char>::empty());
        lemma_strip_wrapped(rgb_code(224, 49, 49) + bold_code(), text);
    } else {
        lemma_strip_bare(text);
    }
}

/// A scalar, stripped, is the scalar as it is written without colours.
proof fn lemma_strip_value(cfg: PrinterView, value: ValueView)
    requires
        value_is_bare(value),
    ensures
        strips_to(styled_value(cfg, value), styled_value(cfg.with_colors(false), value)),
{
    lemma_signs_bare();
    lemma_lacks_concat(value.shape_name, "(⋯)"@, escape());
    let text = value_text(value);
    assert(has_no_escape(text));
    if cfg.use_colors {
        let color = shade(cfg.palette, value.shape_hash);
        lemma_strip_rgb_code(color.r, color.g, color.b);
        lemma_strip_wrapped(rgb_code(color.r, color.g, color.b), text);
    } else {
        lemma_strip_bare(text);
    }
}

/// The depth marker, stripped, is the depth marker as it is written
/// without colours.
proof fn lemma_strip_depth_marker(cfg: PrinterView)
    ensures
        strips_to(depth_marker(cfg), depth_marker(cfg.with_colors(false))),
{
    lemma_signs_bare();
    lemma_strip_styled(cfg, "["@);
    lemma_strip_bare("..."@);
    lemma_strips_concat(styled_punctuation(cfg, "["@), "["@, "..."@, "..."@);
}

/// The cycle marker, stripped, is the cycle marker as it is written
/// without colours.
proof fn lemma_strip_cycle_marker(
    cfg: PrinterView,
    name: Seq<char>,
    addr: usize,
    first_seen: usize,
)
    requires
        has_no_escape(name),
    ensures
        strips_to(
            cycle_marker(cfg, name, addr, first_seen),
            cycle_marker(cfg.with_colors(false), name, addr, first_seen),
        ),
{
    let comment = cycle_comment(addr, first_seen);
    lemma_signs_bare();
    lemma_cycle_comment_bare(addr, first_seen);
    lemma_strip_styled(cfg, name);
    lemma_strip_styled(cfg, " { "@);
    lemma_strip_styled(cfg, comment);
    lemma_strip_styled(cfg, " }"@);
    let a = styled_shape_name(cfg, name);
    let b = styled_punctuation(cfg, " { "@);
    let c = styled_comment(cfg, comment);
    let d = styled_punctuation(cfg, " }"@);
    lemma_strips_concat(a, name, b, " { "@);
    lemma_strips_concat(a + b, name + " { "@, c, comment);
    lemma_strips_concat(a + b + c, name + " { "@ + comment, d, " }"@);
}

/// A map, stripped, is the map as it is written without colours.
proof fn lemma_strip_map(cfg: PrinterView, m: MapView, format_depth: usize)
    requires
        value_is_bare(m.value),
    ensures
        strips_to(
            render_map(cfg, m, format_depth),
            render_map(cfg.with_colors(false), m, format_depth),
        ),
{
    let bare = cfg.with_colors(false);
    let note = "/* Map contents */"@;
    lemma_signs_bare();
    lemma_strip_styled(cfg, m.value.shape_name);
    lemma_strip_styled(cfg, " {"@);
    lemma_strip_styled(cfg, note);
    lemma_strip_styled(cfg, "}"@);
    lemma_strip_bare("\n"@);
    let inner = indentation(deeper(format_depth) as nat, cfg.indent_size as nat);
    let outer = indentation(format_depth as nat, cfg.indent_size as nat);
    lemma_indentation_bare(deeper(format_depth) as nat, cfg.indent_size as nat);
    lemma_indentation_bare(format_depth as nat, cfg.indent_size as nat);
    let a = styled_shape_name(cfg, m.value.shape_name);
    let pa = styled_shape_name(bare, m.value.shape_name);
    let b = styled_punctuation(cfg, " {"@);
    let pb = styled_punctuation(bare, " {"@);
    let c = styled_comment(cfg, note);
    let pc = styled_comment(bare, note);
    let d = styled_punctuation(cfg, "}"@);
    let pd = styled_punctuation(bare, "}"@);
    let nl = "\n"@;
    lemma_strips_concat(a, pa, b, pb);
    lemma_strips_concat(a + b, pa + pb, nl, nl);
    lemma_strips_concat(a + b + nl, pa + pb + nl, inner, inner);
    lemma_strips_concat(a + b + nl + inner, pa + pb + nl + inner, c, pc);
    lemma_strips_concat(a + b + nl + inner + c, pa + pb + nl + inner + pc, nl, nl);
    lemma_strips_concat(a + b + nl + inner + c + nl, pa + pb + nl + inner + pc + nl, outer, outer);
    lemma_strips_concat(
        a + b + nl + inner + c + nl + outer,
        pa + pb + nl + inner + pc + nl + outer,
        d,
        pd,
    );
}

/// Colours change nothing but the style commands. For a snapshot whose
/// names and texts hold no escape character, what is written with colours
/// is, once stripped, what is written without, and the same addresses are
/// recorded.
pub proof fn lemma_strip_peek(
    cfg: PrinterView,
    peek: PeekView,
    format_depth: usize,
    type_depth: usize,
    visited: Map<usize, usize>,
)
    requires
        peek_is_bare(peek),
    ensures
        strips_to(
            render_peek(cfg, peek, format_depth, type_depth, visited).text,
            render_peek(cfg.with_colors(false), peek, format_depth, type_depth, visited).text,
        ),
        render_peek(cfg, peek, format_depth, type_depth, visited).visited == render_peek(
            cfg.with_colors(false),
            peek,
            format_depth,
            type_depth,
            visited,
        ).visited,
    decreases peek, 1nat,
{
    let addr = peek.value().data;
    if exceeds_depth(cfg, format_depth) {
        lemma_strip_depth_marker(cfg);
    } else if closes_cycle(visited, addr, type_depth) {
        lemma_strip_cycle_marker(cfg, peek.value().shape_name, addr, visited[addr]);
    } else {
        lemma_strip_variant(
            cfg,
            peek,
            format_depth,
            type_depth,
            record_visit(visited, addr, type_depth),
        );
    }
}

/// What [`lemma_strip_peek`] says, of a value written by its kind.
proof fn lemma_strip_variant(
    cfg: PrinterView,
    peek: PeekView,
    format_depth: usize,
    type_depth: usize,
    visited: Map<usize, usize>,
)
    requires
        peek_is_bare(peek),
    ensures
        strips_to(
            render_variant(cfg, peek, format_depth, type_depth, visited).text,
            render_variant(cfg.with_colors(false), peek, format_depth, type_depth, visited).text,
        ),
        render_variant(cfg, peek, format_depth, type_depth, visited).visited == render_variant(
            cfg.with_colors(false),
            peek,
            format_depth,
            type_depth,
            visited,
        ).visited,
    decreases peek, 0nat,
{
    match peek {
        PeekView::Value(v) => {
            lemma_strip_value(cfg, v);
        },
        PeekView::Struct(s) => {
            lemma_strip_struct(cfg, s, deeper(format_depth), type_depth, visited);
        },
        PeekView::List(l) => {
            lemma_strip_list(cfg, l, deeper(format_depth), type_depth, visited);
        },
        PeekView::Mapping(m) => {
            lemma_strip_map(cfg, m, deeper(format_depth));
        },
    }
}

/// What [`lemma_strip_peek`] says, of a struct.
proof fn lemma_strip_struct(
    cfg: PrinterView,
    s: StructView,
    format_depth: usize,
    type_depth: usize,
    visited: Map<usize, usize>,
)
    requires
        peek_is_bare(PeekView::Struct(s)),
    ensures
        strips_to(
            render_struct(cfg, s, format_depth, type_depth, visited).text,
            render_struct(cfg.with_colors(false), s, format_depth, type_depth, visited).text,
        ),
        render_struct(cfg, s, format_depth, type_depth, visited).visited == render_struct(
            cfg.with_colors(false),
            s,
            format_depth,
            type_depth,
            visited,
        ).visited,
    decreases s, 0nat,
{
    let bare = cfg.with_colors(false);
    lemma_signs_bare();
    lemma_strip_styled(cfg, s.value.shape_name);
    lemma_strip_styled(cfg, " {"@);
    lemma_strip_styled(cfg, " }"@);
    lemma_strip_styled(cfg, "}"@);
    lemma_strip_bare("\n"@);
    let a = styled_shape_name(cfg, s.value.shape_name);
    let pa = styled_shape_name(bare, s.value.shape_name);
    let b = styled_punctuation(cfg, " {"@);
    let pb = styled_punctuation(bare, " {"@);
    lemma_strips_concat(a, pa, b, pb);
    if s.fields.len() == 0 {
        lemma_strips_concat(
            a + b,
            pa + pb,
            styled_punctuation(cfg, " }"@),
            styled_punctuation(bare, " }"@),
        );
    } else {
        lemma_strip_fields(cfg, s.fields, 0, s.value.data, format_depth, type_depth, visited);
        let body = render_fields(cfg, s.fields, 0, s.value.data, format_depth, type_depth, visited);
        let pbody = render_fields(
            bare,
            s.fields,
            0,
            s.value.data,
            format_depth,
            type_depth,
            visited,
        );
        let nl = "\n"@;
        let ind = indentation(shallower(format_depth) as nat, cfg.indent_size as nat);
        lemma_indentation_bare(shallower(format_depth) as nat, cfg.indent_size as nat);
        let d = styled_punctuation(cfg, "}"@);
        let pd = styled_punctuation(bare, "}"@);
        lemma_strips_concat(a + b, pa + pb, nl, nl);
        lemma_strips_concat(a + b + nl, pa + pb + nl, body.text, pbody.text);
        lemma_strips_concat(a + b + nl + body.text, pa + pb + nl + pbody.text, ind, ind);
        lemma_strips_concat(
            a + b + nl + body.text + ind,
            pa + pb + nl + pbody.text + ind,
            d,
            pd,
        );
    }
}

/// What [`lemma_strip_peek`] says, of the fields of a struct from the field
/// `from` on.
proof fn lemma_strip_fields(
    cfg: PrinterView,
    fields: Seq<FieldView>,
    from: int,
    parent: usize,
    format_depth: usize,
    type_depth: usize,
    visited: Map<usize, usize>,
)
    requires
        forall|i: int|
            0 <= i < fields.len() ==> has_no_escape((#[trigger] fields[i]).name) && peek_is_bare(
                fields[i].value,
            ),
    ensures
        strips_to(
            render_fields(cfg, fields, from, parent, format_depth, type_depth, visited).text,
            render_fields(
                cfg.with_colors(false),
                fields,
                from,
                parent,
                format_depth,
                type_depth,
                visited,
            ).text,
        ),
        render_fields(cfg, fields, from, parent, format_depth, type_depth, visited).visited
            == render_fields(
            cfg.with_colors(false),
            fields,
            from,
            parent,
            format_depth,
            type_depth,
            visited,
        ).visited,
    decreases fields, fields.len() - from,
{
    let bare = cfg.with_colors(false);
    if 0 <= from < fields.len() {
        lemma_strip_field(cfg, fields[from], parent, format_depth, type_depth, visited);
        let first = render_field(cfg, fields[from], parent, format_depth, type_depth, visited);
        let pfirst = render_field(bare, fields[from], parent, format_depth, type_depth, visited);
        lemma_strip_fields(
            cfg,
            fields,
            from + 1,
            parent,
            format_depth,
            type_depth,
            first.visited,
        );
        let rest = render_fields(
            cfg,
            fields,
            from + 1,
            parent,
            format_depth,
            type_depth,
            first.visited,
        );
        let prest = render_fields(
            bare,
            fields,
            from + 1,
            parent,
            format_depth,
            type_depth,
            first.visited,
        );
        lemma_strips_concat(first.text, pfirst.text, rest.text, prest.text);
    } else {
        lemma_strip_bare(Seq::<char>::empty());
    }
}

/// What [`lemma_strip_peek`] says, of one field of a struct.
proof fn lemma_strip_field(
    cfg: PrinterView,
    field: FieldView,
    parent: usize,
    format_depth: usize,
    type_depth: usize,
    visited: Map<usize, usize>,
)
    requires
        has_no_escape(field.name),
        peek_is_bare(field.value),
    ensures
        strips_to(
            render_field(cfg, field, parent, format_depth, type_depth, visited).text,
            render_field(
                cfg.with_colors(false),
                field,
                parent,
                format_depth,
                type_depth,
                visited,
            ).text,
        ),
        render_field(cfg, field, parent, format_depth, type_depth, visited).visited
            == render_field(
            cfg.with_colors(false),
            field,
            parent,
            format_depth,
            type_depth,
            visited,
        ).visited,
    decreases field, 0nat,
{
    let bare = cfg.with_colors(false);
    lemma_signs_bare();
    lemma_strip_styled(cfg, field.name);
    lemma_strip_styled(cfg, ": "@);
    lemma_strip_styled(cfg, ","@);
    lemma_strip_styled(cfg, redaction_token());
    lemma_strip_bare("\n"@);
    let ind = indentation(deeper(format_depth) as nat, cfg.indent_size as nat);
    lemma_indentation_bare(deeper(format_depth) as nat, cfg.indent_size as nat);
    let depth = child_type_depth(type_depth, parent, field.value.value().data);
    if !field.sensitive() {
        lemma_strip_peek(cfg, field.value, deeper(format_depth), depth, visited);
    }
    let value = if field.sensitive() {
        styled_redacted(cfg, redaction_token())
    } else {
        render_peek(cfg, field.value, deeper(format_depth), depth, visited).text
    };
    let pvalue = if field.sensitive() {
        styled_redacted(bare, redaction_token())
    } else {
        render_peek(bare, field.value, deeper(format_depth), depth, visited).text
    };
    let a = styled_field_name(cfg, field.name);
    let pa = styled_field_name(bare, field.name);
    let b = styled_punctuation(cfg, ": "@);
    let pb = styled_punctuation(bare, ": "@);
    let c = styled_punctuation(cfg, ","@);
    let pc = styled_punctuation(bare, ","@);
    let nl = "\n"@;
    lemma_strips_concat(ind, ind, a, pa);
    lemma_strips_concat(ind + a, ind + pa, b, pb);
    lemma_strips_concat(ind + a + b, ind + pa + pb, value, pvalue);
    lemma_strips_concat(ind + a + b + value, ind + pa + pb + pvalue, c, pc);
    lemma_strips_concat(ind + a + b + value + c, ind + pa + pb + pvalue + pc, nl, nl);
}

/// What [`lemma_strip_peek`] says, of a list.
proof fn lemma_strip_list(
    cfg: PrinterView,
    l: ListView,
    format_depth: usize,
    type_depth: usize,
    visited: Map<usize, usize>,
)
    requires
        peek_is_bare(PeekView::List(l)),
    ensures
        strips_to(
            render_list(cfg, l, format_depth, type_depth, visited).text,
            render_list(cfg.with_colors(false), l, format_depth, type_depth, visited).text,
        ),
        render_list(cfg, l, format_depth, type_depth, visited).visited == render_list(
            cfg.with_colors(false),
            l,
            format_depth,
            type_depth,
            visited,
        ).visited,
    decreases l, 0nat,
{
    let bare = cfg.with_colors(false);
    lemma_signs_bare();
    lemma_strip_styled(cfg, l.value.shape_name);
    lemma_strip_styled(cfg, " ["@);
    lemma_strip_styled(cfg, "]"@);
    lemma_strip_bare("\n"@);
    lemma_strip_items(cfg, l.items, 0, l.value.data, format_depth, type_depth, visited);
    let body = render_items(cfg, l.items, 0, l.value.data, format_depth, type_depth, visited);
    let pbody = render_items(bare, l.items, 0, l.value.data, format_depth, type_depth, visited);
    let a = styled_shape_name(cfg, l.value.shape_name);
    let pa = styled_shape_name(bare, l.value.shape_name);
    let b = styled_punctuation(cfg, " ["@);
    let pb = styled_punctuation(bare, " ["@);
    let d = styled_punctuation(cfg, "]"@);
    let pd = styled_punctuation(bare, "]"@);
    let nl = "\n"@;
    let ind = indentation(format_depth as nat, cfg.indent_size as nat);
    lemma_indentation_bare(format_depth as nat, cfg.indent_size as nat);
    lemma_strips_concat(a, pa, b, pb);
    lemma_strips_concat(a + b, pa + pb, nl, nl);
    lemma_strips_concat(a + b + nl, pa + pb + nl, body.text, pbody.text);
    lemma_strips_concat(a + b + nl + body.text, pa + pb + nl + pbody.text, ind, ind);
    lemma_strips_concat(a + b + nl + body.text + ind, pa + pb + nl + pbody.text + ind, d, pd);
}

/// What [`lemma_strip_peek`] says, of the elements of a list from the
/// element `from` on.
proof fn lemma_strip_items(
    cfg: PrinterView,
    items: Seq<PeekView>,
    from: int,
    parent: usize,
    format_depth: usize,
    type_depth: usize,
    visited: Map<usize, usize>,
)
    requires
        forall|i: int| 0 <= i < items.len() ==> peek_is_bare(#[trigger] items[i]),
    ensures
        strips_to(
            render_items(cfg, items, from, parent, format_depth, type_depth, visited).text,
            render_items(
                cfg.with_colors(false),
                items,
                from,
                parent,
                format_depth,
                type_depth,
                visited,
            ).text,
        ),
        render_items(cfg, items, from, parent, format_depth, type_depth, visited).visited
            == render_items(
            cfg.with_colors(false),
            items,
            from,
            parent,
            format_depth,
            type_depth,
            visited,
        ).visited,
    decreases items, items.len() - from,
{
    let bare = cfg.with_colors(false);
    if 0 <= from < items.len() {
        lemma_signs_bare();
        let depth = child_type_depth(type_depth, parent, items[from].value().data);
        lemma_strip_peek(cfg, items[from], deeper(format_depth), depth, visited);
        let first = render_peek(cfg, items[from], deeper(format_depth), depth, visited);
        let pfirst = render_peek(bare, items[from], deeper(format_depth), depth, visited);
        lemma_strip_items(
            cfg,
            items,
            from + 1,
            parent,
            format_depth,
            type_depth,
            first.visited,
        );
        let rest = render_items(
            cfg,
            items,
            from + 1,
            parent,
            format_depth,
            type_depth,
            first.visited,
        );
        let prest = render_items(
            bare,
            items,
            from + 1,
            parent,
            format_depth,
            type_depth,
            first.visited,
        );
        let ind = indentation(deeper(format_depth) as nat, cfg.indent_size as nat);
        lemma_indentation_bare(deeper(format_depth) as nat, cfg.indent_size as nat);
        let sep = item_separator(cfg, from, items.len());
        let psep = item_separator(bare, from, items.len());
        if from + 1 < items.len() {
            lemma_strip_styled(cfg, ","@);
        } else {
            lemma_strip_bare(Seq::<char>::empty());
        }
        let nl = "\n"@;
        lemma_strip_bare(nl);
        lemma_strips_concat(ind, ind, first.text, pfirst.text);
        lemma_strips_concat(ind + first.text, ind + pfirst.text, sep, psep);
        lemma_strips_concat(ind + first.text + sep, ind + pfirst.text + psep, nl, nl);
        lemma_strips_concat(
            ind + first.text + sep + nl,
            ind + pfirst.text + psep + nl,
            rest.text,
            prest.text,
        );
    } else {
        lemma_strip_bare(Seq::<char>::empty());
    }
}

/// Switching colours off leaves the text and takes the style commands
/// away. For a snapshot whose names and texts hold no escape character,
/// what the printer writes without colours holds no escape character, and
/// it is what the printer writes with colours, stripped of its style
/// commands.
pub proof fn lemma_no_color_identity(cfg: PrinterView, peek: PeekView)
    requires
        peek_is_bare(peek),
    ensures
        has_no_escape(render(cfg.with_colors(false), peek)),
        strip_styles(render(cfg, peek)) == render(cfg.with_colors(false), peek),
        strip_styles(render(cfg.with_colors(false), peek)) == render(cfg.with_colors(false), peek),
{
    lemma_strip_peek(cfg, peek, 0, 0, Map::empty());
    lemma_strip_bare(render(cfg.with_colors(false), peek));
}

} // verus!

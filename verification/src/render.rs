//! What the printer writes, as a function of its settings and of the
//! snapshot it is given.
//!
//! Rendering carries two depths. The format depth counts every step down
//! into a nested value and decides indentation and the depth limit. The
//! type depth counts only the steps that lead to another address; together
//! with the addresses seen so far it tells a value that merely wraps
//! another at the same address from one that closes a cycle.

use crate::ansi::{bold_code, dim_code, reset_code, rgb_code};
use crate::color::{shade, Palette};
use crate::peek::{FieldView, ListView, MapView, PeekView, StructView, ValueView};
use crate::text::{decimal, indentation, pointer_text};
use vstd::prelude::*;

verus! {

/// The settings of a [`PrettyPrinter`].
pub struct PrinterView {
    /// Spaces per nesting level.
    pub indent_size: usize,
    /// The deepest rendering depth that is still written out, if there is a
    /// limit.
    pub max_depth: Option<usize>,
    /// What the colours of values are generated from.
    pub palette: Palette,
    /// Whether style commands are written at all.
    pub use_colors: bool,
}

impl PrinterView {
    /// These settings with another number of spaces per nesting level.
    pub open spec fn with_indent_size(self, size: usize) -> PrinterView {
        PrinterView { indent_size: size, ..self }
    }

    /// These settings with a limit on the rendering depth.
    pub open spec fn with_max_depth(self, depth: usize) -> PrinterView {
        PrinterView { max_depth: Some(depth), ..self }
    }

    /// These settings with other colours.
    pub open spec fn with_palette(self, palette: Palette) -> PrinterView {
        PrinterView { palette, ..self }
    }

    /// These settings with colours switched on or off.
    pub open spec fn with_colors(self, use_colors: bool) -> PrinterView {
        PrinterView { use_colors, ..self }
    }
}

/// The settings that a new printer has.
pub open spec fn default_settings() -> PrinterView {
    PrinterView {
        indent_size: 2,
        max_depth: None,
        palette: Palette { base_hue: 210, saturation: 70, lightness: 60 },
        use_colors: true,
    }
}

/// A type name as it is written: bold where colours are on.
pub open spec fn styled_shape_name(cfg: PrinterView, name: Seq<char>) -> Seq<char> {
    if cfg.use_colors {
        bold_code() + name + reset_code()
    } else {
        name
    }
}

/// A field name as it is written: steel blue where colours are on.
pub open spec fn styled_field_name(cfg: PrinterView, name: Seq<char>) -> Seq<char> {
    if cfg.use_colors {
        rgb_code(114, 160, 193) + name + reset_code()
    } else {
        name
    }
}

/// Punctuation as it is written: dim where colours are on.
pub open spec fn styled_punctuation(cfg: PrinterView, text: Seq<char>) -> Seq<char> {
    if cfg.use_colors {
        dim_code() + text + reset_code()
    } else {
        text
    }
}

/// A comment as it is written: dim where colours are on.
pub open spec fn styled_comment(cfg: PrinterView, text: Seq<char>) -> Seq<char> {
    if cfg.use_colors {
        dim_code() + text + reset_code()
    } else {
        text
    }
}

/// What stands for a redacted value as it is written: bold bright red where
/// colours are on.
pub open spec fn styled_redacted(cfg: PrinterView, text: Seq<char>) -> Seq<char> {
    if cfg.use_colors {
        rgb_code(224, 49, 49) + bold_code() + text + reset_code()
    } else {
        text
    }
}

/// The token that is written in place of the value of a sensitive field.
pub open spec fn redaction_token() -> Seq<char> {
    "[REDACTED]"@
}

/// The text of a scalar: as its shape displays it; failing that, as its
/// shape prints it for debugging; failing both, the name of its type and a
/// placeholder.
pub open spec fn value_text(value: ValueView) -> Seq<char> {
    match value.display {
        Some(text) => text,
        None => match value.debug {
            Some(text) => text,
            None => value.shape_name + "(⋯)"@,
        },
    }
}

/// A scalar as it is written: in the colour of its shape where colours are
/// on.
pub open spec fn styled_value(cfg: PrinterView, value: ValueView) -> Seq<char> {
    if cfg.use_colors {
        let color = shade(cfg.palette, value.shape_hash);
        rgb_code(color.r, color.g, color.b) + value_text(value) + reset_code()
    } else {
        value_text(value)
    }
}

/// What is written in place of a value that lies too deep.
pub open spec fn depth_marker(cfg: PrinterView) -> Seq<char> {
    styled_punctuation(cfg, "["@) + "..."@
}

/// The comment inside a cycle marker: the address that was met again, and
/// the type depth at which it was first seen.
pub open spec fn cycle_comment(addr: usize, first_seen: usize) -> Seq<char> {
    "/* cycle detected at "@ + pointer_text(addr as nat) + " (first seen at type_depth "@
        + decimal(first_seen as nat) + ") */"@
}

/// What is written in place of a value that closes a cycle.
pub open spec fn cycle_marker(
    cfg: PrinterView,
    name: Seq<char>,
    addr: usize,
    first_seen: usize,
) -> Seq<char> {
    styled_shape_name(cfg, name) + styled_punctuation(cfg, " { "@) + styled_comment(
        cfg,
        cycle_comment(addr, first_seen),
    ) + styled_punctuation(cfg, " }"@)
}

/// The depth one level below `depth`. Depths are machine words: the deepest
/// one has no level below it and stands for itself.
pub open spec fn deeper(depth: usize) -> usize {
    if depth < usize::MAX {
        (depth + 1) as usize
    } else {
        depth
    }
}

/// The depth one level above `depth`; the top level stands for itself.
pub open spec fn shallower(depth: usize) -> usize {
    if depth > 0 {
        (depth - 1) as usize
    } else {
        depth
    }
}

/// The type depth of a value nested in a value at `parent` that has the type
/// depth `type_depth`: the same where both lie at one address, one level
/// deeper where they do not.
pub open spec fn child_type_depth(type_depth: usize, parent: usize, child: usize) -> usize {
    if child == parent {
        type_depth
    } else {
        deeper(type_depth)
    }
}

/// Whether a value at `format_depth` lies below the depth limit.
pub open spec fn exceeds_depth(cfg: PrinterView, format_depth: usize) -> bool {
    match cfg.max_depth {
        Some(limit) => format_depth > limit,
        None => false,
    }
}

/// Whether a value at `addr` that is reached at `type_depth` closes a cycle:
/// its address was seen before, more than one level of type depth higher
/// up.
pub open spec fn closes_cycle(visited: Map<usize, usize>, addr: usize, type_depth: usize) -> bool {
    visited.contains_key(addr) && type_depth > visited[addr] + 1
}

/// The addresses seen once `addr` was reached at `type_depth`: an address is
/// recorded with the type depth at which it was first seen.
pub open spec fn record_visit(
    visited: Map<usize, usize>,
    addr: usize,
    type_depth: usize,
) -> Map<usize, usize> {
    if visited.contains_key(addr) {
        visited
    } else {
        visited.insert(addr, type_depth)
    }
}

/// What rendering a value yields: the text, and the addresses seen by the
/// end of it.
pub struct Rendered {
    pub text: Seq<char>,
    pub visited: Map<usize, usize>,
}

/// The rendering of a value that is reached at the given depths, after the
/// addresses in `visited` were seen: the depth marker where the value lies
/// below the depth limit; else the cycle marker where it closes a cycle;
/// else what its kind calls for, with its address recorded.
pub open spec fn render_peek(
    cfg: PrinterView,
    peek: PeekView,
    format_depth: usize,
    type_depth: usize,
    visited: Map<usize, usize>,
) -> Rendered
    decreases peek, 1nat,
{
    let addr = peek.value().data;
    if exceeds_depth(cfg, format_depth) {
        Rendered { text: depth_marker(cfg), visited }
    } else if closes_cycle(visited, addr, type_depth) {
        Rendered {
            text: cycle_marker(cfg, peek.value().shape_name, addr, visited[addr]),
            visited,
        }
    } else {
        render_variant(
            cfg,
            peek,
            format_depth,
            type_depth,
            record_visit(visited, addr, type_depth),
        )
    }
}

/// The rendering of a value by its kind. A struct, a list or a map is one
/// level of format depth below the value it was reached as, and at the same
/// type depth.
pub open spec fn render_variant(
    cfg: PrinterView,
    peek: PeekView,
    format_depth: usize,
    type_depth: usize,
    visited: Map<usize, usize>,
) -> Rendered
    decreases peek, 0nat,
{
    match peek {
        PeekView::Value(v) => Rendered { text: styled_value(cfg, v), visited },
        PeekView::Struct(s) => render_struct(cfg, s, deeper(format_depth), type_depth, visited),
        PeekView::List(l) => render_list(cfg, l, deeper(format_depth), type_depth, visited),
        PeekView::Mapping(m) => Rendered {
            text: render_map(cfg, m, deeper(format_depth)),
            visited,
        },
    }
}

/// The rendering of a struct. `format_depth` is the struct's own depth, one
/// below that of the value it was reached as; the closing brace stands at
/// the indentation of that value, and at the margin where there is none.
pub open spec fn render_struct(
    cfg: PrinterView,
    s: StructView,
    format_depth: usize,
    type_depth: usize,
    visited: Map<usize, usize>,
) -> Rendered
    decreases s, 0nat,
{
    let head = styled_shape_name(cfg, s.value.shape_name) + styled_punctuation(cfg, " {"@);
    if s.fields.len() == 0 {
        Rendered { text: head + styled_punctuation(cfg, " }"@), visited }
    } else {
        let body = render_fields(cfg, s.fields, 0, s.value.data, format_depth, type_depth, visited);
        Rendered {
            text: head + "\n"@ + body.text + indentation(
                shallower(format_depth) as nat,
                cfg.indent_size as nat,
            ) + styled_punctuation(cfg, "}"@),
            visited: body.visited,
        }
    }
}

/// The rendering of one field of a struct at `parent`: indentation, name,
/// colon, then the redaction token if the field is sensitive and the
/// rendering of its value if it is not, a comma and a line break.
pub open spec fn render_field(
    cfg: PrinterView,
    field: FieldView,
    parent: usize,
    format_depth: usize,
    type_depth: usize,
    visited: Map<usize, usize>,
) -> Rendered
    decreases field, 0nat,
{
    let lead = indentation(deeper(format_depth) as nat, cfg.indent_size as nat)
        + styled_field_name(cfg, field.name) + styled_punctuation(cfg, ": "@);
    let value = if field.sensitive() {
        Rendered { text: styled_redacted(cfg, redaction_token()), visited }
    } else {
        render_peek(
            cfg,
            field.value,
            deeper(format_depth),
            child_type_depth(type_depth, parent, field.value.value().data),
            visited,
        )
    };
    Rendered {
        text: lead + value.text + styled_punctuation(cfg, ","@) + "\n"@,
        visited: value.visited,
    }
}

/// The rendering of the fields of a struct from the field `from` on, in
/// declaration order.
pub open spec fn render_fields(
    cfg: PrinterView,
    fields: Seq<FieldView>,
    from: int,
    parent: usize,
    format_depth: usize,
    type_depth: usize,
    visited: Map<usize, usize>,
) -> Rendered
    decreases fields, fields.len() - from,
{
    if 0 <= from < fields.len() {
        let first = render_field(cfg, fields[from], parent, format_depth, type_depth, visited);
        let rest = render_fields(
            cfg,
            fields,
            from + 1,
            parent,
            format_depth,
            type_depth,
            first.visited,
        );
        Rendered { text: first.text + rest.text, visited: rest.visited }
    } else {
        Rendered { text: Seq::empty(), visited }
    }
}

/// The rendering of a list. `format_depth` is the list's own depth, one
/// below that of the value it was reached as.
pub open spec fn render_list(
    cfg: PrinterView,
    l: ListView,
    format_depth: usize,
    type_depth: usize,
    visited: Map<usize, usize>,
) -> Rendered
    decreases l, 0nat,
{
    let body = render_items(cfg, l.items, 0, l.value.data, format_depth, type_depth, visited);
    Rendered {
        text: styled_shape_name(cfg, l.value.shape_name) + styled_punctuation(cfg, " ["@) + "\n"@
            + body.text + indentation(format_depth as nat, cfg.indent_size as nat)
            + styled_punctuation(cfg, "]"@),
        visited: body.visited,
    }
}

/// What separates the element `index` of a list of `len` elements from the
/// next: a comma, and nothing after the last.
pub open spec fn item_separator(cfg: PrinterView, index: int, len: nat) -> Seq<char> {
    if index + 1 < len {
        styled_punctuation(cfg, ","@)
    } else {
        Seq::empty()
    }
}

/// The rendering of the elements of a list at `parent` from the element
/// `from` on: each indented, followed by its separator and a line break.
pub open spec fn render_items(
    cfg: PrinterView,
    items: Seq<PeekView>,
    from: int,
    parent: usize,
    format_depth: usize,
    type_depth: usize,
    visited: Map<usize, usize>,
) -> Rendered
    decreases items, items.len() - from,
{
    if 0 <= from < items.len() {
        let first = render_peek(
            cfg,
            items[from],
            deeper(format_depth),
            child_type_depth(type_depth, parent, items[from].value().data),
            visited,
        );
        let rest = render_items(
            cfg,
            items,
            from + 1,
            parent,
            format_depth,
            type_depth,
            first.visited,
        );
        Rendered {
            text: indentation(deeper(format_depth) as nat, cfg.indent_size as nat) + first.text
                + item_separator(cfg, from, items.len()) + "\n"@ + rest.text,
            visited: rest.visited,
        }
    } else {
        Rendered { text: Seq::empty(), visited }
    }
}

/// The rendering of a map: its entries are not written, a comment stands in
/// their place. `format_depth` is the map's own depth.
pub open spec fn render_map(cfg: PrinterView, m: MapView, format_depth: usize) -> Seq<char> {
    styled_shape_name(cfg, m.value.shape_name) + styled_punctuation(cfg, " {"@) + "\n"@
        + indentation(deeper(format_depth) as nat, cfg.indent_size as nat) + styled_comment(
        cfg,
        "/* Map contents */"@,
    ) + "\n"@ + indentation(format_depth as nat, cfg.indent_size as nat) + styled_punctuation(
        cfg,
        "}"@,
    )
}

/// The text of a value rendered from the top, with no address seen yet.
pub open spec fn render(cfg: PrinterView, peek: PeekView) -> Seq<char> {
    render_peek(cfg, peek, 0, 0, Map::empty()).text
}

} // verus!

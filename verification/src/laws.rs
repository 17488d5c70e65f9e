//! What holds of every rendering, proved from the definition of what the
//! printer writes.

use crate::ansi::{bold_code, dim_code, reset_code};
use crate::color::Palette;
use crate::peek::{FieldView, ListView, PeekView, StructView, ValueView};
use crate::render::{
    child_type_depth, closes_cycle, record_visit, cycle_marker, deeper, depth_marker, exceeds_depth,
    item_separator, redaction_token, render_field, render_fields, render_items, render_list, render_peek,
    render_struct, render_variant, styled_field_name, styled_punctuation, styled_redacted,
    styled_shape_name, styled_value, value_text, PrinterView, Rendered,
};
use crate::text::{count_of, indentation, lacks, lemma_count_concat, lemma_count_lacks};
use vstd::prelude::*;

verus! {

/// A setting reads back as it was set, and the last of two settings of one
/// field stands.
pub proof fn lemma_settings_read_back(
    cfg: PrinterView,
    size: usize,
    other_size: usize,
    depth: usize,
    other_depth: usize,
    palette: Palette,
    other_palette: Palette,
    colors: bool,
    other_colors: bool,
)
    ensures
        cfg.with_indent_size(size).indent_size == size,
        cfg.with_max_depth(depth).max_depth == Some(depth),
        cfg.with_palette(palette).palette == palette,
        cfg.with_colors(colors).use_colors == colors,
        cfg.with_indent_size(other_size).with_indent_size(size) == cfg.with_indent_size(size),
        cfg.with_max_depth(other_depth).with_max_depth(depth) == cfg.with_max_depth(depth),
        cfg.with_palette(other_palette).with_palette(palette) == cfg.with_palette(palette),
        cfg.with_colors(other_colors).with_colors(colors) == cfg.with_colors(colors),
{
}

/// Settings of different fields can be made in any order, and none of them
/// touches a field that is not its own.
pub proof fn lemma_settings_commute(
    cfg: PrinterView,
    size: usize,
    depth: usize,
    palette: Palette,
    colors: bool,
)
    ensures
        cfg.with_indent_size(size).with_max_depth(depth) == cfg.with_max_depth(
            depth,
        ).with_indent_size(size),
        cfg.with_indent_size(size).with_palette(palette) == cfg.with_palette(
            palette,
        ).with_indent_size(size),
        cfg.with_indent_size(size).with_colors(colors) == cfg.with_colors(colors).with_indent_size(
            size,
        ),
        cfg.with_max_depth(depth).with_palette(palette) == cfg.with_palette(palette).with_max_depth(
            depth,
        ),
        cfg.with_max_depth(depth).with_colors(colors) == cfg.with_colors(colors).with_max_depth(
            depth,
        ),
        cfg.with_palette(palette).with_colors(colors) == cfg.with_colors(colors).with_palette(
            palette,
        ),
        cfg.with_indent_size(size).max_depth == cfg.max_depth,
        cfg.with_indent_size(size).palette == cfg.palette,
        cfg.with_indent_size(size).use_colors == cfg.use_colors,
        cfg.with_max_depth(depth).indent_size == cfg.indent_size,
        cfg.with_max_depth(depth).palette == cfg.palette,
        cfg.with_max_depth(depth).use_colors == cfg.use_colors,
        cfg.with_palette(palette).indent_size == cfg.indent_size,
        cfg.with_palette(palette).max_depth == cfg.max_depth,
        cfg.with_palette(palette).use_colors == cfg.use_colors,
        cfg.with_colors(colors).indent_size == cfg.indent_size,
        cfg.with_colors(colors).max_depth == cfg.max_depth,
        cfg.with_colors(colors).palette == cfg.palette,
{
}

/// A value that is reached below the depth limit is written as the depth
/// marker and nothing else: whatever the value is and holds, none of it
/// shows, and no address is recorded.
pub proof fn lemma_depth_cap(
    cfg: PrinterView,
    limit: usize,
    peek: PeekView,
    other: PeekView,
    format_depth: usize,
    type_depth: usize,
    visited: Map<usize, usize>,
)
    requires
        cfg.max_depth == Some(limit),
        format_depth > limit,
    ensures
        render_peek(cfg, peek, format_depth, type_depth, visited) == (Rendered {
            text: depth_marker(cfg),
            visited,
        }),
        render_peek(cfg, peek, format_depth, type_depth, visited) == render_peek(
            cfg,
            other,
            format_depth,
            type_depth,
            visited,
        ),
{
}

/// A value within the depth limit is never written as the depth marker on
/// account of its depth: what is written is decided by its address and its
/// kind.
pub proof fn lemma_within_depth(
    cfg: PrinterView,
    peek: PeekView,
    format_depth: usize,
    type_depth: usize,
    visited: Map<usize, usize>,
)
    requires
        cfg.max_depth matches Some(limit) ==> format_depth <= limit,
        !visited.contains_key(peek.value().data),
    ensures
        render_peek(cfg, peek, format_depth, type_depth, visited) == render_variant(
            cfg,
            peek,
            format_depth,
            type_depth,
            visited.insert(peek.value().data, type_depth),
        ),
{
}

/// Where the address of a value was seen before at the type depth `first`,
/// the value is written as usual if it is reached at most one level of type
/// depth below `first`, and as the cycle marker, with nothing of what it
/// holds, if it is reached two or more levels below. Neither changes what
/// is recorded of the address.
pub proof fn lemma_cycle_boundary(
    cfg: PrinterView,
    peek: PeekView,
    format_depth: usize,
    type_depth: usize,
    visited: Map<usize, usize>,
    first: usize,
)
    requires
        !exceeds_depth(cfg, format_depth),
        visited.contains_key(peek.value().data),
        visited[peek.value().data] == first,
    ensures
        type_depth <= first + 1 ==> render_peek(cfg, peek, format_depth, type_depth, visited)
            == render_variant(cfg, peek, format_depth, type_depth, visited),
        type_depth >= first + 2 ==> render_peek(cfg, peek, format_depth, type_depth, visited) == (
        Rendered {
            text: cycle_marker(cfg, peek.value().shape_name, peek.value().data, first),
            visited,
        }),
        closes_cycle(visited, peek.value().data, type_depth) <==> type_depth >= first + 2,
{
}

/// A sensitive field is written as its name and the redaction token,
/// whatever its value is, at whatever depth it lies and whatever addresses
/// were seen: two sensitive fields of one name are written alike, and
/// neither records an address.
pub proof fn lemma_redaction(
    cfg: PrinterView,
    field: FieldView,
    other: FieldView,
    parent: usize,
    format_depth: usize,
    type_depth: usize,
    visited: Map<usize, usize>,
)
    requires
        field.sensitive(),
        other.sensitive(),
        field.name == other.name,
    ensures
        render_field(cfg, field, parent, format_depth, type_depth, visited) == (Rendered {
            text: indentation(deeper(format_depth) as nat, cfg.indent_size as nat)
                + styled_field_name(cfg, field.name) + styled_punctuation(cfg, ": "@)
                + styled_redacted(cfg, redaction_token()) + styled_punctuation(cfg, ","@) + "\n"@,
            visited,
        }),
        render_field(cfg, field, parent, format_depth, type_depth, visited) == render_field(
            cfg,
            other,
            parent,
            format_depth,
            type_depth,
            visited,
        ),
{
}

/// The fields of a struct are written in declaration order, each before
/// all that follow it, and each of them, the last too, ends with a comma
/// and a line break.
pub proof fn lemma_fields_in_order(
    cfg: PrinterView,
    fields: Seq<FieldView>,
    from: int,
    parent: usize,
    format_depth: usize,
    type_depth: usize,
    visited: Map<usize, usize>,
)
    requires
        0 <= from < fields.len(),
    ensures
        ({
            let first = render_field(cfg, fields[from], parent, format_depth, type_depth, visited);
            let rest = render_fields(
                cfg,
                fields,
                from + 1,
                parent,
                format_depth,
                type_depth,
                first.visited,
            );
            let end = styled_punctuation(cfg, ","@) + "\n"@;
            &&& render_fields(cfg, fields, from, parent, format_depth, type_depth, visited) == (
            Rendered { text: first.text + rest.text, visited: rest.visited })
            &&& first.text.len() >= end.len()
            &&& first.text.subrange(first.text.len() - end.len(), first.text.len() as int) == end
        }),
{
    let first = render_field(cfg, fields[from], parent, format_depth, type_depth, visited);
    let comma = styled_punctuation(cfg, ","@);
    let end = comma + "\n"@;
    let start = first.text.subrange(0, first.text.len() - end.len());
    assert(first.text.len() >= end.len());
    assert(first.text =~= start + end);
    assert(first.text.subrange(first.text.len() - end.len(), first.text.len() as int) =~= end);
}

/// A struct without fields is written on one line, as its name and a pair
/// of braces with a space between them, with no line break.
pub proof fn lemma_empty_struct(
    cfg: PrinterView,
    s: StructView,
    format_depth: usize,
    type_depth: usize,
    visited: Map<usize, usize>,
)
    requires
        s.fields.len() == 0,
    ensures
        render_struct(cfg, s, format_depth, type_depth, visited) == (Rendered {
            text: styled_shape_name(cfg, s.value.shape_name) + styled_punctuation(cfg, " {"@)
                + styled_punctuation(cfg, " }"@),
            visited,
        }),
        !cfg.use_colors ==> render_struct(cfg, s, format_depth, type_depth, visited).text
            == s.value.shape_name + " { }"@,
{
    reveal_strlit(" {");
    reveal_strlit(" }");
    reveal_strlit(" { }");
    if !cfg.use_colors {
        assert(" {"@ + " }"@ =~= " { }"@);
        assert(s.value.shape_name + " {"@ + " }"@ =~= s.value.shape_name + (" {"@ + " }"@));
    }
}

/// A scalar whose shape can neither display it nor print it for debugging
/// is written as the name of its type and a placeholder.
pub proof fn lemma_fallback_text(cfg: PrinterView, value: ValueView)
    requires
        value.display is None,
        value.debug is None,
    ensures
        value_text(value) == value.shape_name + "(⋯)"@,
        !cfg.use_colors ==> styled_value(cfg, value) == value.shape_name + "(⋯)"@,
{
}

/// The text of a scalar is what its shape displays wherever the shape can
/// display it, and what the shape prints for debugging only where it
/// cannot.
pub proof fn lemma_display_first(value: ValueView)
    ensures
        value.display matches Some(text) ==> value_text(value) == text,
        value.display is None ==> (value.debug matches Some(text) ==> value_text(value) == text),
{
}

/// How many commas the elements of a list from the element `from` on hold
/// in their own texts.
pub open spec fn commas_of_items(
    cfg: PrinterView,
    items: Seq<PeekView>,
    from: int,
    parent: usize,
    format_depth: usize,
    type_depth: usize,
    visited: Map<usize, usize>,
) -> nat
    decreases items.len() - from,
{
    if 0 <= from < items.len() {
        let first = render_peek(
            cfg,
            items[from],
            deeper(format_depth),
            child_type_depth(type_depth, parent, items[from].value().data),
            visited,
        );
        count_of(first.text, ',') + commas_of_items(
            cfg,
            items,
            from + 1,
            parent,
            format_depth,
            type_depth,
            first.visited,
        )
    } else {
        0
    }
}

/// How many pairs of neighbours there are among the elements of a list of
/// `len` elements from the element `from` on.
pub open spec fn neighbours(len: nat, from: int) -> nat {
    if 0 <= from && from + 1 < len {
        (len - 1 - from) as nat
    } else {
        0
    }
}

/// Styling punctuation or a type name adds no comma to it.
proof fn lemma_styled_commas(cfg: PrinterView, text: Seq<char>)
    ensures
        count_of(styled_punctuation(cfg, text), ',') == count_of(text, ','),
        count_of(styled_shape_name(cfg, text), ',') == count_of(text, ','),
{
    reveal_strlit("\x1b[0m");
    reveal_strlit("\x1b[1m");
    reveal_strlit("\x1b[2m");
    lemma_count_lacks(reset_code(), ',');
    lemma_count_lacks(bold_code(), ',');
    lemma_count_lacks(dim_code(), ',');
    lemma_count_concat(dim_code(), text, ',');
    lemma_count_concat(dim_code() + text, reset_code(), ',');
    lemma_count_concat(bold_code(), text, ',');
    lemma_count_concat(bold_code() + text, reset_code(), ',');
}

/// The commas among the elements of a list are those that the elements
/// hold in their own texts, and one more between each two neighbours.
proof fn lemma_item_separators(
    cfg: PrinterView,
    items: Seq<PeekView>,
    from: int,
    parent: usize,
    format_depth: usize,
    type_depth: usize,
    visited: Map<usize, usize>,
)
    ensures
        count_of(
            render_items(cfg, items, from, parent, format_depth, type_depth, visited).text,
            ',',
        ) == commas_of_items(cfg, items, from, parent, format_depth, type_depth, visited)
            + neighbours(items.len(), from),
    decreases items.len() - from,
{
    if 0 <= from < items.len() {
        let first = render_peek(
            cfg,
            items[from],
            deeper(format_depth),
            child_type_depth(type_depth, parent, items[from].value().data),
            visited,
        );
        lemma_item_separators(
            cfg,
            items,
            from + 1,
            parent,
            format_depth,
            type_depth,
            first.visited,
        );
        let rest = render_items(
            cfg,
            items,
            from + 1,
            parent,
            format_depth,
            type_depth,
            first.visited,
        );
        let ind = indentation(deeper(format_depth) as nat, cfg.indent_size as nat);
        let sep = item_separator(cfg, from, items.len());
        let nl = "\n"@;
        reveal_strlit("\n");
        reveal_strlit(",");
        lemma_count_lacks(ind, ',');
        lemma_count_lacks(nl, ',');
        lemma_styled_commas(cfg, ","@);
        assert(count_of(","@, ',') == 1) by {
            reveal_with_fuel(count_of, 2);
            assert(","@.drop_first().len() == 0);
        }
        assert(count_of(sep, ',') == if from + 1 < items.len() {
            1nat
        } else {
            0nat
        }) by {
            if from + 1 >= items.len() {
                lemma_count_lacks(sep, ',');
            }
        }
        lemma_count_concat(ind, first.text, ',');
        lemma_count_concat(ind + first.text, sep, ',');
        lemma_count_concat(ind + first.text + sep, nl, ',');
        lemma_count_concat(ind + first.text + sep + nl, rest.text, ',');
    } else {
        lemma_count_lacks(Seq::<char>::empty(), ',');
    }
}

/// A list of `n` elements is written with `n - 1` commas between its
/// elements, and with none if it is empty: its commas are those of its
/// type name, those that its elements hold in their own texts, and these.
/// It closes with a bracket at the indentation of its own depth.
pub proof fn lemma_list_separators(
    cfg: PrinterView,
    l: ListView,
    format_depth: usize,
    type_depth: usize,
    visited: Map<usize, usize>,
)
    ensures
        count_of(render_list(cfg, l, format_depth, type_depth, visited).text, ',') == count_of(
            l.value.shape_name,
            ',',
        ) + commas_of_items(cfg, l.items, 0, l.value.data, format_depth, type_depth, visited) + (
        if l.items.len() == 0 {
            0
        } else {
            l.items.len() - 1
        }),
        ({
            let text = render_list(cfg, l, format_depth, type_depth, visited).text;
            let closing = indentation(format_depth as nat, cfg.indent_size as nat)
                + styled_punctuation(cfg, "]"@);
            text.len() >= closing.len() && text.subrange(text.len() - closing.len(), text.len() as int)
                == closing
        }),
{
    let body = render_items(cfg, l.items, 0, l.value.data, format_depth, type_depth, visited);
    lemma_item_separators(cfg, l.items, 0, l.value.data, format_depth, type_depth, visited);
    let a = styled_shape_name(cfg, l.value.shape_name);
    let b = styled_punctuation(cfg, " ["@);
    let nl = "\n"@;
    let ind = indentation(format_depth as nat, cfg.indent_size as nat);
    let d = styled_punctuation(cfg, "]"@);
    reveal_strlit("\n");
    reveal_strlit(" [");
    reveal_strlit("]");
    lemma_styled_commas(cfg, l.value.shape_name);
    lemma_styled_commas(cfg, " ["@);
    lemma_styled_commas(cfg, "]"@);
    lemma_count_lacks(" ["@, ',');
    lemma_count_lacks("]"@, ',');
    lemma_count_lacks(nl, ',');
    lemma_count_lacks(ind, ',');
    lemma_count_concat(a, b, ',');
    lemma_count_concat(a + b, nl, ',');
    lemma_count_concat(a + b + nl, body.text, ',');
    lemma_count_concat(a + b + nl + body.text, ind, ',');
    lemma_count_concat(a + b + nl + body.text + ind, d, ',');
    let text = render_list(cfg, l, format_depth, type_depth, visited).text;
    let closing = ind + d;
    assert(text =~= (a + b + nl + body.text) + closing);
    assert(text.subrange(text.len() - closing.len(), text.len() as int) =~= closing);
}

/// Whether `after` holds every address of `before`, with the type depth
/// that `before` has for it.
pub open spec fn keeps(before: Map<usize, usize>, after: Map<usize, usize>) -> bool {
    forall|addr: usize| #[trigger]
        before.contains_key(addr) ==> after.contains_key(addr) && after[addr] == before[addr]
}

/// What is kept twice over is kept.
proof fn lemma_keeps_on(a: Map<usize, usize>, b: Map<usize, usize>, c: Map<usize, usize>)
    requires
        keeps(a, b),
        keeps(b, c),
    ensures
        keeps(a, c),
{
    assert forall|addr: usize| #[trigger] a.contains_key(addr) implies c.contains_key(addr) && c[addr]
        == a[addr] by {
        assert(b.contains_key(addr));
    }
}

/// Rendering only ever adds to the addresses seen: an address stays
/// recorded, with the type depth at which it was first seen.
pub proof fn lemma_first_seen_stays(
    cfg: PrinterView,
    peek: PeekView,
    format_depth: usize,
    type_depth: usize,
    visited: Map<usize, usize>,
)
    ensures
        keeps(visited, render_peek(cfg, peek, format_depth, type_depth, visited).visited),
    decreases peek, 1nat,
{
    let addr = peek.value().data;
    if !exceeds_depth(cfg, format_depth) && !closes_cycle(visited, addr, type_depth) {
        let seen = record_visit(visited, addr, type_depth);
        let end = render_peek(cfg, peek, format_depth, type_depth, visited).visited;
        assert(keeps(visited, seen));
        match peek {
            PeekView::Struct(s) => {
                if s.fields.len() > 0 {
                    lemma_first_seen_stays_fields(
                        cfg,
                        s.fields,
                        0,
                        s.value.data,
                        deeper(format_depth),
                        type_depth,
                        seen,
                    );
                }
            },
            PeekView::List(l) => {
                lemma_first_seen_stays_items(
                    cfg,
                    l.items,
                    0,
                    l.value.data,
                    deeper(format_depth),
                    type_depth,
                    seen,
                );
            },
            _ => {},
        }
        assert(keeps(seen, end));
        lemma_keeps_on(visited, seen, end);
    }
}

/// What [`lemma_first_seen_stays`] says, of the fields of a struct.
proof fn lemma_first_seen_stays_fields(
    cfg: PrinterView,
    fields: Seq<FieldView>,
    from: int,
    parent: usize,
    format_depth: usize,
    type_depth: usize,
    visited: Map<usize, usize>,
)
    ensures
        keeps(
            visited,
            render_fields(cfg, fields, from, parent, format_depth, type_depth, visited).visited,
        ),
    decreases fields, fields.len() - from,
{
    if 0 <= from < fields.len() {
        let field = fields[from];
        if !field.sensitive() {
            lemma_first_seen_stays(
                cfg,
                field.value,
                deeper(format_depth),
                child_type_depth(type_depth, parent, field.value.value().data),
                visited,
            );
        }
        let first = render_field(cfg, field, parent, format_depth, type_depth, visited);
        lemma_first_seen_stays_fields(
            cfg,
            fields,
            from + 1,
            parent,
            format_depth,
            type_depth,
            first.visited,
        );
        assert(keeps(visited, first.visited));
        lemma_keeps_on(
            visited,
            first.visited,
            render_fields(cfg, fields, from, parent, format_depth, type_depth, visited).visited,
        );
    }
}

/// What [`lemma_first_seen_stays`] says, of the elements of a list.
proof fn lemma_first_seen_stays_items(
    cfg: PrinterView,
    items: Seq<PeekView>,
    from: int,
    parent: usize,
    format_depth: usize,
    type_depth: usize,
    visited: Map<usize, usize>,
)
    ensures
        keeps(
            visited,
            render_items(cfg, items, from, parent, format_depth, type_depth, visited).visited,
        ),
    decreases items, items.len() - from,
{
    if 0 <= from < items.len() {
        let depth = child_type_depth(type_depth, parent, items[from].value().data);
        lemma_first_seen_stays(cfg, items[from], deeper(format_depth), depth, visited);
        let first = render_peek(cfg, items[from], deeper(format_depth), depth, visited);
        lemma_first_seen_stays_items(
            cfg,
            items,
            from + 1,
            parent,
            format_depth,
            type_depth,
            first.visited,
        );
        lemma_keeps_on(
            visited,
            first.visited,
            render_items(cfg, items, from, parent, format_depth, type_depth, visited).visited,
        );
    }
}

} // verus!

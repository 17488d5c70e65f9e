//! The pretty printer: a configurable renderer that walks a snapshot and
//! writes indented, optionally coloured text, cut off at a depth limit and
//! at reference cycles, with sensitive fields redacted.

use crate::ansi::{write_bold, write_dim, write_reset, write_rgb};
use crate::color::{ColorGenerator, Rgb};
use crate::peek::{Peek, PeekField, PeekList, PeekMap, PeekStruct, PeekValue};
use crate::render::{
    cycle_comment, cycle_marker, deeper, default_settings, depth_marker, item_separator,
    record_visit, render, render_field, render_fields, render_items, render_list, render_map,
    render_peek, render_struct, styled_comment, styled_field_name, styled_punctuation,
    styled_redacted, styled_shape_name, styled_value, PrinterView,
};
use crate::text::{indentation, write_decimal, write_indentation, write_pointer};
use std::collections::HashMap;
use vstd::prelude::*;
use vstd::std_specs::hash::*;
use vstd::string::*;

verus! {

broadcast use vstd::std_specs::hash::group_hash_axioms;

/// Renders snapshots of values as indented, optionally coloured text.
#[derive(Clone, Copy, Debug)]
pub struct PrettyPrinter {
    indent_size: usize,
    max_depth: Option<usize>,
    color_generator: ColorGenerator,
    use_colors: bool,
}

impl View for PrettyPrinter {
    type V = PrinterView;

    closed spec fn view(&self) -> PrinterView {
        PrinterView {
            indent_size: self.indent_size,
            max_depth: self.max_depth,
            palette: self.color_generator@,
            use_colors: self.use_colors,
        }
    }
}

impl Default for PrettyPrinter {
    /// A printer that indents by two spaces, has no depth limit and writes
    /// colours from the default generator.
    fn default() -> (printer: PrettyPrinter)
        ensures
            printer@ == default_settings(),
    {
        PrettyPrinter {
            indent_size: 2,
            max_depth: None,
            color_generator: ColorGenerator::new(),
            use_colors: true,
        }
    }
}

/// The depth one level below `depth`.
fn next_depth(depth: usize) -> (d: usize)
    ensures
        d == deeper(depth),
{
    if depth < usize::MAX {
        depth + 1
    } else {
        depth
    }
}

impl PrettyPrinter {
    /// A printer with the default settings.
    pub fn new() -> (printer: PrettyPrinter)
        ensures
            printer@ == default_settings(),
    {
        PrettyPrinter {
            indent_size: 2,
            max_depth: None,
            color_generator: ColorGenerator::new(),
            use_colors: true,
        }
    }

    /// This printer with another number of spaces per nesting level.
    pub fn with_indent_size(self, size: usize) -> (printer: PrettyPrinter)
        ensures
            printer@ == self@.with_indent_size(size),
    {
        PrettyPrinter {
            indent_size: size,
            max_depth: self.max_depth,
            color_generator: self.color_generator,
            use_colors: self.use_colors,
        }
    }

    /// This printer with a limit on the rendering depth.
    pub fn with_max_depth(self, depth: usize) -> (printer: PrettyPrinter)
        ensures
            printer@ == self@.with_max_depth(depth),
    {
        PrettyPrinter {
            indent_size: self.indent_size,
            max_depth: Some(depth),
            color_generator: self.color_generator,
            use_colors: self.use_colors,
        }
    }

    /// This printer with another generator of colours.
    pub fn with_color_generator(self, generator: ColorGenerator) -> (printer: PrettyPrinter)
        ensures
            printer@ == self@.with_palette(generator@),
    {
        PrettyPrinter {
            indent_size: self.indent_size,
            max_depth: self.max_depth,
            color_generator: generator,
            use_colors: self.use_colors,
        }
    }

    /// This printer with colours switched on or off.
    pub fn with_colors(self, use_colors: bool) -> (printer: PrettyPrinter)
        ensures
            printer@ == self@.with_colors(use_colors),
    {
        PrettyPrinter {
            indent_size: self.indent_size,
            max_depth: self.max_depth,
            color_generator: self.color_generator,
            use_colors,
        }
    }

    /// Spaces per nesting level.
    pub fn indent_size(&self) -> (size: usize)
        ensures
            size == self@.indent_size,
    {
        self.indent_size
    }

    /// The limit on the rendering depth, if there is one.
    pub fn max_depth(&self) -> (depth: Option<usize>)
        ensures
            depth == self@.max_depth,
    {
        self.max_depth
    }

    /// Whether colours are switched on.
    pub fn use_colors(&self) -> (on: bool)
        ensures
            on == self@.use_colors,
    {
        self.use_colors
    }

    /// The generator of colours.
    pub fn color_generator(&self) -> (generator: ColorGenerator)
        ensures
            generator@ == self@.palette,
    {
        self.color_generator
    }

    /// Renders a snapshot from the top.
    pub fn format_peek(&self, peek: &Peek) -> (out: String)
        ensures
            out@ == render(self@, peek@),
    {
        let mut out: String = String::new();
        let mut visited: HashMap<usize, usize> = HashMap::new();
        self.format_peek_internal(peek, &mut out, 0, 0, &mut visited);
        assert(out@ =~= render(self@, peek@));
        out
    }

    /// Appends to `out` the rendering of a snapshot that is reached at the
    /// given depths, and records in `visited` the addresses it meets for the
    /// first time.
    pub fn format_peek_internal(
        &self,
        peek: &Peek,
        out: &mut String,
        format_depth: usize,
        type_depth: usize,
        visited: &mut HashMap<usize, usize>,
    )
        ensures
            final(out)@ == old(out)@ + render_peek(
                self@,
                peek@,
                format_depth,
                type_depth,
                old(visited)@,
            ).text,
            final(visited)@ == render_peek(
                self@,
                peek@,
                format_depth,
                type_depth,
                old(visited)@,
            ).visited,
        decreases peek, 0nat,
    {
        if let Some(limit) = self.max_depth {
            if format_depth > limit {
                self.write_punctuation(out, "[");
                out.append("...");
                assert(out@ =~= old(out)@ + depth_marker(self@));
                return ;
            }
        }
        let value: &PeekValue = peek.as_value();
        let addr: usize = value.data;
        match visited.get(&addr) {
            Some(first_seen) => {
                let first_seen: usize = *first_seen;
                if type_depth > first_seen && type_depth - first_seen > 1 {
                    self.write_shape_name(out, value);
                    self.write_punctuation(out, " { ");
                    let mut comment: String = String::new();
                    comment.append("/* cycle detected at ");
                    write_pointer(&mut comment, addr);
                    comment.append(" (first seen at type_depth ");
                    write_decimal(&mut comment, first_seen);
                    comment.append(") */");
                    assert(comment@ =~= cycle_comment(addr, first_seen));
                    self.write_comment(out, comment.as_str());
                    self.write_punctuation(out, " }");
                    assert(out@ =~= old(out)@ + cycle_marker(
                        self@,
                        value@.shape_name,
                        addr,
                        first_seen,
                    ));
                    return ;
                }
            },
            None => {
                visited.insert(addr, type_depth);
            },
        }
        assert(visited@ =~= record_visit(old(visited)@, addr, type_depth));
        match peek {
            Peek::Value(v) => {
                self.format_value(v, out);
            },
            Peek::Struct(s) => {
                self.format_struct(s, out, next_depth(format_depth), type_depth, visited);
            },
            Peek::List(l) => {
                self.format_list(l, out, next_depth(format_depth), type_depth, visited);
            },
            Peek::Mapping(m) => {
                self.format_map(m, out, next_depth(format_depth));
            },
        }
    }

    /// Appends a scalar in the colour of its shape.
    pub fn format_value(&self, value: &PeekValue, out: &mut String)
        ensures
            final(out)@ == old(out)@ + styled_value(self@, value@),
    {
        if self.use_colors {
            let color: Rgb = self.color_generator.generate_color(value.shape_hash);
            color.write_fg(out);
        }
        match &value.display {
            Some(text) => {
                out.append(text.as_str());
            },
            None => match &value.debug {
                Some(text) => {
                    out.append(text.as_str());
                },
                None => {
                    out.append(value.shape_name.as_str());
                    out.append("(⋯)");
                },
            },
        }
        if self.use_colors {
            write_reset(out);
        }
        assert(out@ =~= old(out)@ + styled_value(self@, value@));
    }

    /// Appends a struct whose own depth is `format_depth`.
    pub fn format_struct(
        &self,
        s: &PeekStruct,
        out: &mut String,
        format_depth: usize,
        type_depth: usize,
        visited: &mut HashMap<usize, usize>,
    )
        ensures
            final(out)@ == old(out)@ + render_struct(
                self@,
                s@,
                format_depth,
                type_depth,
                old(visited)@,
            ).text,
            final(visited)@ == render_struct(
                self@,
                s@,
                format_depth,
                type_depth,
                old(visited)@,
            ).visited,
        decreases s, 0nat,
    {
        self.write_shape_name(out, &s.value);
        self.write_punctuation(out, " {");
        let count: usize = s.fields.len();
        if count == 0 {
            self.write_punctuation(out, " }");
            assert(out@ =~= old(out)@ + render_struct(
                self@,
                s@,
                format_depth,
                type_depth,
                old(visited)@,
            ).text);
            return ;
        }
        out.append("\n");
        let parent: usize = s.value.data;
        let inner: usize = next_depth(format_depth);
        let ghost head = out@;
        let ghost whole = render_fields(
            self@,
            s@.fields,
            0,
            parent,
            format_depth,
            type_depth,
            old(visited)@,
        );
        assert(head + whole.text =~= out@ + whole.text);
        let mut index: usize = 0;
        while index < count
            invariant
                index <= count,
                count == s.fields.len(),
                parent == s.value.data,
                inner == deeper(format_depth),
                head + whole.text == out@ + render_fields(
                    self@,
                    s@.fields,
                    index as int,
                    parent,
                    format_depth,
                    type_depth,
                    visited@,
                ).text,
                whole.visited == render_fields(
                    self@,
                    s@.fields,
                    index as int,
                    parent,
                    format_depth,
                    type_depth,
                    visited@,
                ).visited,
            decreases count - index,
        {
            let field: &PeekField = &s.fields[index];
            let ghost before = out@;
            let ghost seen = visited@;
            assert(field@ == s@.fields[index as int]);
            write_indentation(out, inner, self.indent_size);
            self.write_field_name(out, field.name.as_str());
            self.write_punctuation(out, ": ");
            if field.is_sensitive() {
                self.write_redacted(out, "[REDACTED]");
            } else {
                let child: usize = field.value.as_value().data;
                let depth: usize = if child == parent {
                    type_depth
                } else {
                    next_depth(type_depth)
                };
                self.format_peek_internal(&field.value, out, inner, depth, visited);
            }
            self.write_punctuation(out, ",");
            out.append("\n");
            proof {
                let one = render_field(
                    self@,
                    field@,
                    parent,
                    format_depth,
                    type_depth,
                    seen,
                );
                let rest = render_fields(
                    self@,
                    s@.fields,
                    index + 1,
                    parent,
                    format_depth,
                    type_depth,
                    one.visited,
                );
                assert(out@ =~= before + one.text);
                assert(visited@ == one.visited);
                assert(out@ + rest.text =~= before + (one.text + rest.text));
            }
            index = index + 1;
        }
        write_indentation(
            out,
            if format_depth > 0 {
                format_depth - 1
            } else {
                format_depth
            },
            self.indent_size,
        );
        self.write_punctuation(out, "}");
        assert(out@ =~= old(out)@ + render_struct(
            self@,
            s@,
            format_depth,
            type_depth,
            old(visited)@,
        ).text);
    }

    /// Appends a list whose own depth is `format_depth`.
    pub fn format_list(
        &self,
        l: &PeekList,
        out: &mut String,
        format_depth: usize,
        type_depth: usize,
        visited: &mut HashMap<usize, usize>,
    )
        ensures
            final(out)@ == old(out)@ + render_list(
                self@,
                l@,
                format_depth,
                type_depth,
                old(visited)@,
            ).text,
            final(visited)@ == render_list(
                self@,
                l@,
                format_depth,
                type_depth,
                old(visited)@,
            ).visited,
        decreases l, 0nat,
    {
        self.write_shape_name(out, &l.value);
        self.write_punctuation(out, " [");
        out.append("\n");
        let count: usize = l.items.len();
        let parent: usize = l.value.data;
        let inner: usize = next_depth(format_depth);
        let ghost head = out@;
        let ghost whole = render_items(
            self@,
            l@.items,
            0,
            parent,
            format_depth,
            type_depth,
            old(visited)@,
        );
        assert(head + whole.text =~= out@ + whole.text);
        let mut index: usize = 0;
        while index < count
            invariant
                index <= count,
                count == l.items.len(),
                parent == l.value.data,
                inner == deeper(format_depth),
                head + whole.text == out@ + render_items(
                    self@,
                    l@.items,
                    index as int,
                    parent,
                    format_depth,
                    type_depth,
                    visited@,
                ).text,
                whole.visited == render_items(
                    self@,
                    l@.items,
                    index as int,
                    parent,
                    format_depth,
                    type_depth,
                    visited@,
                ).visited,
            decreases count - index,
        {
            let item: &Peek = &l.items[index];
            let ghost before = out@;
            let ghost seen = visited@;
            assert(item@ == l@.items[index as int]);
            write_indentation(out, inner, self.indent_size);
            let child: usize = item.as_value().data;
            let depth: usize = if child == parent {
                type_depth
            } else {
                next_depth(type_depth)
            };
            self.format_peek_internal(item, out, inner, depth, visited);
            if index < count - 1 {
                self.write_punctuation(out, ",");
            }
            out.append("\n");
            proof {
                let one = render_peek(self@, item@, inner, depth, seen);
                let rest = render_items(
                    self@,
                    l@.items,
                    index + 1,
                    parent,
                    format_depth,
                    type_depth,
                    one.visited,
                );
                let line = indentation(inner as nat, self@.indent_size as nat) + one.text
                    + item_separator(self@, index as int, count as nat) + "\n"@;
                assert(out@ =~= before + line);
                assert(out@ + rest.text =~= before + (line + rest.text));
            }
            index = index + 1;
        }
        write_indentation(out, format_depth, self.indent_size);
        self.write_punctuation(out, "]");
        assert(out@ =~= old(out)@ + render_list(
            self@,
            l@,
            format_depth,
            type_depth,
            old(visited)@,
        ).text);
    }

    /// Appends a map whose own depth is `format_depth`.
    pub fn format_map(&self, m: &PeekMap, out: &mut String, format_depth: usize)
        ensures
            final(out)@ == old(out)@ + render_map(self@, m@, format_depth),
    {
        self.write_shape_name(out, &m.value);
        self.write_punctuation(out, " {");
        out.append("\n");
        write_indentation(out, next_depth(format_depth), self.indent_size);
        let comment: String = self.style_comment("/* Map contents */");
        out.append(comment.as_str());
        out.append("\n");
        write_indentation(out, format_depth, self.indent_size);
        let brace: String = self.style_punctuation("}");
        out.append(brace.as_str());
        assert(out@ =~= old(out)@ + render_map(self@, m@, format_depth));
    }

    /// Appends the name of a value's type.
    pub fn write_shape_name(&self, out: &mut String, value: &PeekValue)
        ensures
            final(out)@ == old(out)@ + styled_shape_name(self@, value@.shape_name),
    {
        if self.use_colors {
            write_bold(out);
            out.append(value.shape_name.as_str());
            write_reset(out);
            assert(out@ =~= old(out)@ + styled_shape_name(self@, value@.shape_name));
        } else {
            out.append(value.shape_name.as_str());
        }
    }

    /// The name of a value's type as it is written.
    pub fn style_shape_name(&self, value: &PeekValue) -> (styled: String)
        ensures
            styled@ == styled_shape_name(self@, value@.shape_name),
    {
        let mut styled: String = String::new();
        self.write_shape_name(&mut styled, value);
        assert(styled@ =~= styled_shape_name(self@, value@.shape_name));
        styled
    }

    /// Appends a field name.
    pub fn write_field_name(&self, out: &mut String, name: &str)
        ensures
            final(out)@ == old(out)@ + styled_field_name(self@, name@),
    {
        if self.use_colors {
            write_rgb(out, 114, 160, 193);
            out.append(name);
            write_reset(out);
            assert(out@ =~= old(out)@ + styled_field_name(self@, name@));
        } else {
            out.append(name);
        }
    }

    /// Appends punctuation.
    pub fn write_punctuation(&self, out: &mut String, text: &str)
        ensures
            final(out)@ == old(out)@ + styled_punctuation(self@, text@),
    {
        if self.use_colors {
            write_dim(out);
            out.append(text);
            write_reset(out);
            assert(out@ =~= old(out)@ + styled_punctuation(self@, text@));
        } else {
            out.append(text);
        }
    }

    /// Punctuation as it is written.
    pub fn style_punctuation(&self, text: &str) -> (styled: String)
        ensures
            styled@ == styled_punctuation(self@, text@),
    {
        let mut styled: String = String::new();
        self.write_punctuation(&mut styled, text);
        assert(styled@ =~= styled_punctuation(self@, text@));
        styled
    }

    /// Appends a comment.
    pub fn write_comment(&self, out: &mut String, text: &str)
        ensures
            final(out)@ == old(out)@ + styled_comment(self@, text@),
    {
        if self.use_colors {
            write_dim(out);
            out.append(text);
            write_reset(out);
            assert(out@ =~= old(out)@ + styled_comment(self@, text@));
        } else {
            out.append(text);
        }
    }

    /// A comment as it is written.
    pub fn style_comment(&self, text: &str) -> (styled: String)
        ensures
            styled@ == styled_comment(self@, text@),
    {
        let mut styled: String = String::new();
        self.write_comment(&mut styled, text);
        assert(styled@ =~= styled_comment(self@, text@));
        styled
    }

    /// Appends what stands for a redacted value.
    pub fn write_redacted(&self, out: &mut String, text: &str)
        ensures
            final(out)@ == old(out)@ + styled_redacted(self@, text@),
    {
        if self.use_colors {
            write_rgb(out, 224, 49, 49);
            write_bold(out);
            out.append(text);
            write_reset(out);
            assert(out@ =~= old(out)@ + styled_redacted(self@, text@));
        } else {
            out.append(text);
        }
    }

    /// What stands for a redacted value as it is written.
    pub fn style_redacted(&self, text: &str) -> (styled: String)
        ensures
            styled@ == styled_redacted(self@, text@),
    {
        let mut styled: String = String::new();
        self.write_redacted(&mut styled, text);
        assert(styled@ =~= styled_redacted(self@, text@));
        styled
    }
}

} // verus!

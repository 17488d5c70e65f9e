//! Reflective views over values of a known shape, and a cycle-safe pretty
//! printer for them.
//!
//! A [`peek::Peek`] is a read-only snapshot of an initialized value: its
//! address, its type name, and either a scalar's text or the nested snapshots
//! of its fields or elements. A [`poke::Poke`] is a write handle over memory
//! that may still be uninitialized; an [`iset::ISet`] records which fields of
//! a struct under construction have been written. A
//! [`printer::PrettyPrinter`] renders a `Peek` as indented, optionally
//! coloured text, stops at a configurable depth, marks reference cycles and
//! redacts sensitive fields.

pub mod ansi;
pub mod color;
pub mod iset;
pub mod laws;
pub mod peek;
pub mod plain;
pub mod poke;
pub mod printer;
pub mod render;
pub mod shape;
pub mod text;

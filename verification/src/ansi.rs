//! The terminal style commands that the printer emits: bold, dim, a
//! foreground colour, and the reset that ends each of them.

use crate::text::{decimal, write_decimal};
use vstd::prelude::*;
use vstd::string::*;

verus! {

/// The command that ends every style.
pub open spec fn reset_code() -> Seq<char> {
    "\x1b[0m"@
}

/// The command that starts bold text.
pub open spec fn bold_code() -> Seq<char> {
    "\x1b[1m"@
}

/// The command that starts dim text.
pub open spec fn dim_code() -> Seq<char> {
    "\x1b[2m"@
}

/// The command that sets the foreground colour to the given red, green and
/// blue.
pub open spec fn rgb_code(r: u8, g: u8, b: u8) -> Seq<char> {
    "\x1b[38;2;"@ + decimal(r as nat) + ";"@ + decimal(g as nat) + ";"@ + decimal(b as nat)
        + "m"@
}

/// Appends the reset command.
pub fn write_reset(out: &mut String)
    ensures
        final(out)@ == old(out)@ + reset_code(),
{
    out.append("\x1b[0m");
}

/// Appends the bold command.
pub fn write_bold(out: &mut String)
    ensures
        final(out)@ == old(out)@ + bold_code(),
{
    out.append("\x1b[1m");
}

/// Appends the dim command.
pub fn write_dim(out: &mut String)
    ensures
        final(out)@ == old(out)@ + dim_code(),
{
    out.append("\x1b[2m");
}

/// Appends the command that sets the foreground colour.
pub fn write_rgb(out: &mut String, r: u8, g: u8, b: u8)
    ensures
        final(out)@ == old(out)@ + rgb_code(r, g, b),
{
    out.append("\x1b[38;2;");
    write_decimal(out, r as usize);
    out.append(";");
    write_decimal(out, g as usize);
    out.append(";");
    write_decimal(out, b as usize);
    out.append("m");
    assert(out@ =~= old(out)@ + rgb_code(r, g, b));
}

} // verus!

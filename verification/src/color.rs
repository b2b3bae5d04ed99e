//! Terminal colours: the escape sequences that set and reset them.

use vstd::prelude::*;
use vstd::string::*;
use crate::text::{decimal, push_decimal};

verus! {

/// A colour by its red, green and blue parts.
#[derive(Clone, Copy, Debug, PartialEq, Eq, Structural)]
pub struct Rgb(pub u8, pub u8, pub u8);

/// The escape sequence that sets the foreground colour.
pub open spec fn fg_code(c: Rgb) -> Seq<char> {
    "\x1B[38;2;"@ + decimal(c.0 as nat) + ";"@ + decimal(c.1 as nat) + ";"@ + decimal(c.2 as nat)
        + "m"@
}

/// The escape sequence that sets the background colour.
pub open spec fn bg_code(c: Rgb) -> Seq<char> {
    "\x1B[48;2;"@ + decimal(c.0 as nat) + ";"@ + decimal(c.1 as nat) + ";"@ + decimal(c.2 as nat)
        + "m"@
}

/// The escape sequence that sets the foreground colour back to the
/// terminal's own.
pub open spec fn fg_reset_code() -> Seq<char> {
    "\x1B[39m"@
}

/// The escape sequence that sets the background colour back to the
/// terminal's own.
pub open spec fn bg_reset_code() -> Seq<char> {
    "\x1B[49m"@
}

/// The escape sequence that sets the foreground colour to `c`.
pub fn fg(c: Rgb) -> (out: String)
    ensures
        out@ == fg_code(c),
{
    let mut out = String::from_str("\x1B[38;2;");
    push_decimal(&mut out, c.0 as u64);
    out.append(";");
    push_decimal(&mut out, c.1 as u64);
    out.append(";");
    push_decimal(&mut out, c.2 as u64);
    out.append("m");
    out
}

/// The escape sequence that sets the background colour to `c`.
pub fn bg(c: Rgb) -> (out: String)
    ensures
        out@ == bg_code(c),
{
    let mut out = String::from_str("\x1B[48;2;");
    push_decimal(&mut out, c.0 as u64);
    out.append(";");
    push_decimal(&mut out, c.1 as u64);
    out.append(";");
    push_decimal(&mut out, c.2 as u64);
    out.append("m");
    out
}

/// The escape sequence that sets the foreground colour back to the
/// terminal's own.
pub fn fg_reset() -> (out: String)
    ensures
        out@ == fg_reset_code(),
{
    String::from_str("\x1B[39m")
}

/// The escape sequence that sets the background colour back to the
/// terminal's own.
pub fn bg_reset() -> (out: String)
    ensures
        out@ == bg_reset_code(),
{
    String::from_str("\x1B[49m")
}

} // verus!

//! Character classes.
//!
//! Within ASCII each class is written out, so what it holds there is proved.
//! Beyond ASCII the classes are those of the Unicode tables that `std` carries,
//! and the library asks `std`.

use vstd::prelude::*;

verus! {

/// What `char::is_whitespace` returns for `c`: whether `c` has the Unicode
/// property `White_Space`.
pub uninterp spec fn unicode_whitespace(c: char) -> bool;

/// What `char::is_alphanumeric` returns for `c`: whether `c` is alphabetic or
/// numeric by the Unicode tables.
pub uninterp spec fn unicode_alphanumeric(c: char) -> bool;

/// `c` lies in the ASCII range.
pub open spec fn ascii(c: char) -> bool {
    c <= '\x7f'
}

/// `c` is whitespace: a space or one of the controls from tab to carriage
/// return, or a whitespace character beyond ASCII.
pub open spec fn white(c: char) -> bool {
    c == ' ' || ('\t' <= c && c <= '\r') || (!ascii(c) && unicode_whitespace(c))
}

/// `c` is a letter or a digit: an ASCII one, or an alphanumeric character
/// beyond ASCII.
pub open spec fn alphanumeric(c: char) -> bool {
    ('a' <= c && c <= 'z') || ('A' <= c && c <= 'Z') || ('0' <= c && c <= '9') || (!ascii(c)
        && unicode_alphanumeric(c))
}

/// Calls `char::is_whitespace` and returns its answer unchanged.
#[verifier::external_body]
fn std_is_whitespace(c: char) -> (r: bool)
    ensures
        r == unicode_whitespace(c),
{
    c.is_whitespace()
}

/// Calls `char::is_alphanumeric` and returns its answer unchanged.
#[verifier::external_body]
fn std_is_alphanumeric(c: char) -> (r: bool)
    ensures
        r == unicode_alphanumeric(c),
{
    c.is_alphanumeric()
}

/// Whether `c` is whitespace.
pub fn is_white(c: char) -> (r: bool)
    ensures
        r == white(c),
{
    if c == ' ' || ('\t' <= c && c <= '\r') {
        true
    } else if c > '\x7f' {
        std_is_whitespace(c)
    } else {
        false
    }
}

/// Whether `c` is a letter or a digit.
pub fn is_alphanumeric(c: char) -> (r: bool)
    ensures
        r == alphanumeric(c),
{
    if ('a' <= c && c <= 'z') || ('A' <= c && c <= 'Z') || ('0' <= c && c <= '9') {
        true
    } else if c > '\x7f' {
        std_is_alphanumeric(c)
    } else {
        false
    }
}

} // verus!

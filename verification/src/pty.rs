//! What passes between the host and the pseudo-terminal, as plain values:
//! the text read from it and its size.

use vstd::prelude::*;
use vstd::utf8::{encode_utf8, valid_utf8};

verus! {

/// The bytes that were buffered are not text.
#[derive(Clone, Copy, Debug, PartialEq, Eq, Structural)]
pub struct DecodeError;

/// Text read from the terminal, and how many bytes of the buffer it used up.
#[derive(Debug, PartialEq, Eq)]
pub struct Chunk {
    pub text: String,
    pub consumed: usize,
}

/// Calls `std::str::from_utf8`, which returns the bytes as text where they
/// are valid UTF-8 and an error where they are not; the error is dropped.
#[verifier::external_body]
fn str_from_utf8(bytes: &[u8]) -> (r: Option<&str>)
    ensures
        r is Some <==> valid_utf8(bytes@),
        r matches Some(text) ==> encode_utf8(text@) == bytes@,
{
    match std::str::from_utf8(bytes) {
        Ok(text) => Some(text),
        Err(_) => None,
    }
}

/// What one poll hands out, given the bytes that are buffered now. With no
/// bytes there is nothing to hand out. Bytes that are text as a whole are
/// handed out as text and are all used up. Bytes that are not, as when they
/// stop in the middle of a character, are an error, and none is used up: the
/// next poll sees them again, with what has arrived since.
pub fn read_buffered(buffered: &[u8]) -> (r: Result<Option<Chunk>, DecodeError>)
    ensures
        match r {
            Ok(None) => buffered@.len() == 0,
            Ok(Some(chunk)) => buffered@.len() > 0 && valid_utf8(buffered@) && encode_utf8(
                chunk.text@,
            ) == buffered@ && chunk.consumed == buffered@.len(),
            Err(_) => buffered@.len() > 0 && !valid_utf8(buffered@),
        },
{
    if buffered.len() == 0 {
        return Ok(None);
    }
    match str_from_utf8(buffered) {
        Some(text) => Ok(Some(Chunk { text: String::from_str(text), consumed: buffered.len() })),
        None => Err(DecodeError),
    }
}

/// How many bytes of the buffer a poll used up: all of them where it handed
/// out text, none where it did not.
pub fn consumed(polled: &Result<Option<Chunk>, DecodeError>) -> (n: usize)
    ensures
        n == match polled {
            Ok(Some(chunk)) => chunk.consumed,
            _ => 0,
        },
{
    match polled {
        Ok(Some(chunk)) => chunk.consumed,
        _ => 0,
    }
}

/// The size of a terminal, in character cells and in pixels.
#[derive(Clone, Copy, Debug, PartialEq, Eq, Structural)]
pub struct TerminalSize {
    pub rows: u16,
    pub cols: u16,
    pub pixel_width: u16,
    pub pixel_height: u16,
}

/// The size the terminal is opened with: 24 rows of 80 columns.
pub fn initial_size() -> (size: TerminalSize)
    ensures
        size == (TerminalSize { rows: 24, cols: 80, pixel_width: 0, pixel_height: 0 }),
{
    TerminalSize { rows: 24, cols: 80, pixel_width: 0, pixel_height: 0 }
}

/// The size asked for when the view changes to `rows` by `cols`. Nothing is
/// said about pixels.
pub fn resized(rows: u16, cols: u16) -> (size: TerminalSize)
    ensures
        size == (TerminalSize { rows, cols, pixel_width: 0, pixel_height: 0 }),
{
    TerminalSize { rows, cols, pixel_width: 0, pixel_height: 0 }
}

} // verus!

//! Where the lines of a script and of its input come from, and how their
//! bytes become text.

use vstd::prelude::*;
use vstd::utf8::*;
use crate::action::{ScriptError, line_view};

verus! {

/// `std::io::Error`, the type that a line source reports its faults with. It
/// is carried through as it comes: nothing is known of what a value holds.
#[verifier::external_type_specification]
#[verifier::external_body]
pub struct ExIoError(std::io::Error);

/// A source of lines: the script, or the interactive input.
pub trait InputReader {
    /// The next line as raw bytes, a fault, or `None` at the end. A line may
    /// come with or without its line terminator.
    fn next_line(&mut self) -> Option<Result<Vec<u8>, std::io::Error>>;
}

/// `String::from_utf8` of std: the string that the bytes encode in UTF-8, or
/// `None` where they encode none. A string is returned for exactly the byte
/// sequences that are valid UTF-8, and it is the one whose encoding they are.
#[verifier::external_body]
fn utf8_string(bytes: Vec<u8>) -> (text: Option<String>)
    ensures
        text is Some <==> valid_utf8(bytes@),
        text matches Some(s) ==> encode_utf8(s@) == bytes@,
{
    String::from_utf8(bytes).ok()
}

/// What a reader's answer means to the runtime: a line, the end of the
/// source, or a failure of the run.
pub open spec fn decoded(raw: Option<Result<Vec<u8>, std::io::Error>>) -> Result<
    Option<Seq<char>>,
    ScriptError,
> {
    match raw {
        None => Ok(None),
        Some(Err(_)) => Err(ScriptError::Io),
        Some(Ok(bytes)) => if valid_utf8(bytes@) {
            Ok(Some(decode_utf8(bytes@)))
        } else {
            Err(ScriptError::InvalidUtf8)
        },
    }
}

/// Turns a reader's answer into a line of text. A fault of the reader and
/// bytes that are not UTF-8 both fail the run.
pub fn decode_line(raw: Option<Result<Vec<u8>, std::io::Error>>) -> (r: Result<
    Option<String>,
    ScriptError,
>)
    ensures
        line_view(r) == decoded(raw),
{
    broadcast use encode_utf8_decode_utf8;

    match raw {
        None => Ok(None),
        Some(Err(_)) => Err(ScriptError::Io),
        Some(Ok(bytes)) => match utf8_string(bytes) {
            Some(s) => Ok(Some(s)),
            None => Err(ScriptError::InvalidUtf8),
        },
    }
}

} // verus!

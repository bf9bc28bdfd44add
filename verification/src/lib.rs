//! Convert an ANSI document from RGB or 256 colors down to 16 colors.
//!
//! The text is scanned into a document of colored cells, every cell is brought
//! down to the 16-color palette (block glyphs and inverted glyphs stand in for
//! colors that would otherwise need an escape sequence of their own), and the
//! document is written out again with as few SGR sequences as possible.

use vstd::prelude::*;

pub mod ansi_parser;
pub mod ansi_styles;
pub mod decimal;
pub mod downsample;
pub mod fixed_point;
pub mod invert;
pub mod palette;
pub mod reparse;
pub mod scanner;

pub use ansi_parser::{AnsiChar, AnsiDocument, AnsiParser, MalformedEscape};
pub use ansi_styles::AnsiColor;
pub use invert::{can_invert_char, invert_char};

use ansi_parser::{parse, rendered};
use downsample::downsampled;

verus! {

/// The 16-color text that stands for `text`, or the reason why the first
/// malformed SGR sequence in `text` is malformed: `text` is read into cells,
/// the cells are brought down to 16 colors, and the result is written out.
pub open spec fn converted(text: Seq<char>) -> Result<Seq<char>, MalformedEscape> {
    match parse(text) {
        Ok(cells) => Ok(rendered(downsampled(cells))),
        Err(e) => Err(e),
    }
}

/// Converts an ANSI string to 16 colors.
///
/// A text that holds a malformed SGR sequence is not converted, not even in
/// part: the reason is returned in place of a text.
pub fn string_to_ansi_16(input: &str) -> (r: Result<String, MalformedEscape>)
    ensures
        match converted(input@) {
            Ok(text) => r is Ok && r->Ok_0@ == text,
            Err(e) => r is Err && r->Err_0 == e,
        },
{
    match AnsiDocument::from_string(input) {
        Ok(mut doc) => {
            doc.downsample();
            Ok(doc.to_string())
        },
        Err(e) => Err(e),
    }
}

} // verus!

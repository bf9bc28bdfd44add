//! Inversion of block-drawing glyphs: the glyph that fills what another leaves
//! blank.

use vstd::prelude::*;

verus! {

/// The medium shade. Its inversion is the glyph itself, and it still counts as
/// a glyph that can be inverted: swapping its two colors is a valid rendering.
pub const MEDIUM_SHADE: char = '\u{2592}';

/// The full block.
pub const FULL_BLOCK: char = '\u{2588}';

/// The glyph with the filled and unfilled regions of `c` swapped; `c` itself
/// where `c` is no block-drawing glyph.
pub open spec fn inverted(c: char) -> char {
    match c {
        // Full block and shades
        ' ' => '\u{2588}',  // space
        '\u{2591}' => '\u{2593}',  // light shade
        '\u{2588}' => ' ',  // full block
        '\u{2593}' => '\u{2591}',  // dark shade
        // Vertical eighths
        '\u{2581}' => '\u{1FB86}',  // lower one eighth block
        '\u{2582}' => '\u{1FB85}',  // lower one quarter block
        '\u{2583}' => '\u{1FB84}',  // lower three eighths block
        '\u{2584}' => '\u{2580}',  // lower half block
        '\u{2585}' => '\u{1FB83}',  // lower five eighths block
        '\u{2586}' => '\u{1FB82}',  // lower three quarters block
        '\u{2587}' => '\u{2594}',  // lower seven eighths block
        '\u{1FB86}' => '\u{2581}',  // upper seven eighths block
        '\u{1FB85}' => '\u{2582}',  // upper three quarters block
        '\u{1FB84}' => '\u{2583}',  // upper five eighths block
        '\u{2580}' => '\u{2584}',  // upper half block
        '\u{1FB83}' => '\u{2585}',  // upper three eighths block
        '\u{1FB82}' => '\u{2586}',  // upper one quarter block
        '\u{2594}' => '\u{2587}',  // upper one eighth block
        // Horizontal eighths
        '\u{258F}' => '\u{1FB8B}',  // left one eighth block
        '\u{258E}' => '\u{1FB8A}',  // left one quarter block
        '\u{258D}' => '\u{1FB89}',  // left three eighths block
        '\u{258C}' => '\u{2590}',  // left half block
        '\u{258B}' => '\u{1FB88}',  // left five eighths block
        '\u{258A}' => '\u{1FB87}',  // left three quarters block
        '\u{2589}' => '\u{2595}',  // left seven eighths block
        '\u{1FB8B}' => '\u{258F}',  // right seven eighths block
        '\u{1FB8A}' => '\u{258E}',  // right three quarters block
        '\u{1FB89}' => '\u{258D}',  // right five eighths block
        '\u{2590}' => '\u{258C}',  // right half block
        '\u{1FB88}' => '\u{258B}',  // right three eighths block
        '\u{1FB87}' => '\u{258A}',  // right one quarter block
        '\u{2595}' => '\u{2589}',  // right one eighth block
        // Quadrants
        '\u{2598}' => '\u{259F}',  // quadrant upper left
        '\u{259D}' => '\u{2599}',  // quadrant upper right
        '\u{2596}' => '\u{259C}',  // quadrant lower left
        '\u{2597}' => '\u{259B}',  // quadrant lower right
        '\u{259A}' => '\u{259E}',  // quadrant upper left and lower right
        '\u{259F}' => '\u{2598}',  // quadrant upper right and lower left and lower right
        '\u{2599}' => '\u{259D}',  // quadrant upper left and lower left and lower right
        '\u{259C}' => '\u{2596}',  // quadrant upper left and upper right and lower right
        '\u{259B}' => '\u{2597}',  // quadrant upper left and upper right and lower left
        '\u{259E}' => '\u{259A}',  // quadrant upper right and lower left
        _ => c,
    }
}

/// Whether `c` takes part in glyph inversion: every glyph that inversion
/// changes, and the medium shade.
pub open spec fn invertible(c: char) -> bool {
    c == MEDIUM_SHADE || inverted(c) != c
}

/// Given a unicode block character, returns the inverted block character.  For
/// example, given a half-block with the bottom half filled in, will return a block
/// with the top half filled in.  Given a full block, will return a space.
pub fn invert_char(c: char) -> (r: char)
    ensures
        r == inverted(c),
{
    match c {
        // Full block and shades
        ' ' => '\u{2588}',  // space
        '\u{2591}' => '\u{2593}',  // light shade
        '\u{2588}' => ' ',  // full block
        '\u{2593}' => '\u{2591}',  // dark shade
        // Vertical eighths
        '\u{2581}' => '\u{1FB86}',  // lower one eighth block
        '\u{2582}' => '\u{1FB85}',  // lower one quarter block
        '\u{2583}' => '\u{1FB84}',  // lower three eighths block
        '\u{2584}' => '\u{2580}',  // lower half block
        '\u{2585}' => '\u{1FB83}',  // lower five eighths block
        '\u{2586}' => '\u{1FB82}',  // lower three quarters block
        '\u{2587}' => '\u{2594}',  // lower seven eighths block
        '\u{1FB86}' => '\u{2581}',  // upper seven eighths block
        '\u{1FB85}' => '\u{2582}',  // upper three quarters block
        '\u{1FB84}' => '\u{2583}',  // upper five eighths block
        '\u{2580}' => '\u{2584}',  // upper half block
        '\u{1FB83}' => '\u{2585}',  // upper three eighths block
        '\u{1FB82}' => '\u{2586}',  // upper one quarter block
        '\u{2594}' => '\u{2587}',  // upper one eighth block
        // Horizontal eighths
        '\u{258F}' => '\u{1FB8B}',  // left one eighth block
        '\u{258E}' => '\u{1FB8A}',  // left one quarter block
        '\u{258D}' => '\u{1FB89}',  // left three eighths block
        '\u{258C}' => '\u{2590}',  // left half block
        '\u{258B}' => '\u{1FB88}',  // left five eighths block
        '\u{258A}' => '\u{1FB87}',  // left three quarters block
        '\u{2589}' => '\u{2595}',  // left seven eighths block
        '\u{1FB8B}' => '\u{258F}',  // right seven eighths block
        '\u{1FB8A}' => '\u{258E}',  // right three quarters block
        '\u{1FB89}' => '\u{258D}',  // right five eighths block
        '\u{2590}' => '\u{258C}',  // right half block
        '\u{1FB88}' => '\u{258B}',  // right three eighths block
        '\u{1FB87}' => '\u{258A}',  // right one quarter block
        '\u{2595}' => '\u{2589}',  // right one eighth block
        // Quadrants
        '\u{2598}' => '\u{259F}',  // quadrant upper left
        '\u{259D}' => '\u{2599}',  // quadrant upper right
        '\u{2596}' => '\u{259C}',  // quadrant lower left
        '\u{2597}' => '\u{259B}',  // quadrant lower right
        '\u{259A}' => '\u{259E}',  // quadrant upper left and lower right
        '\u{259F}' => '\u{2598}',  // quadrant upper right and lower left and lower right
        '\u{2599}' => '\u{259D}',  // quadrant upper left and lower left and lower right
        '\u{259C}' => '\u{2596}',  // quadrant upper left and upper right and lower right
        '\u{259B}' => '\u{2597}',  // quadrant upper left and upper right and lower left
        '\u{259E}' => '\u{259A}',  // quadrant upper right and lower left
        c => c,
    }
}

/// Returns true if we can invert the character.
pub fn can_invert_char(c: char) -> (r: bool)
    ensures
        r == invertible(c),
{
    c == MEDIUM_SHADE || invert_char(c) != c
}

/// Inverting a glyph twice gives the glyph back. This holds of every
/// character, and so of every glyph that inversion changes.
pub proof fn lemma_invert_twice(c: char)
    ensures
        inverted(inverted(c)) == c,
{
}

} // verus!

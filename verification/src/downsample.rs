//! The transform that brings a document down to the 16-color palette.
//!
//! Beyond converting every color, the transform trades colors for glyphs
//! where that saves escape sequences or gives a truer picture: a colored
//! blank becomes a full block, a cell whose two colors are the same becomes a
//! blank or a full block, and a block glyph drawn in black on a color is
//! drawn inverted in that color on black.

use vstd::prelude::*;

use crate::ansi_parser::{AnsiChar, AnsiDocument};
use crate::ansi_styles::{default_bg, same_color, spec_default_bg, AnsiColor};
use crate::invert::{can_invert_char, invert_char, inverted, invertible, FULL_BLOCK};

verus! {

/// The cell that stands for `cell` in 16 colors, where `prior_bg` is the
/// background of the cell before it as already brought down. Both colors are
/// converted; then the first of these that fits is applied:
///
/// * a space on a background other than the default becomes a full block in
///   that color, on the background of the cell before;
/// * a cell whose foreground equals its background becomes a space where
///   that color is the default background, a full block where it is not;
/// * a glyph that can be inverted, drawn in the color of the default
///   background, becomes the inverted glyph in what was the background
///   color, on the default background.
pub open spec fn downsampled_cell(prior_bg: AnsiColor, cell: AnsiChar) -> AnsiChar {
    let fg = cell.fg.to_ansi_16();
    let bg = cell.bg.to_ansi_16();
    if cell.c == ' ' && !same_color(bg, spec_default_bg()) {
        AnsiChar { fg: bg, bg: prior_bg, c: FULL_BLOCK }
    } else if same_color(fg, bg) {
        AnsiChar {
            fg,
            bg,
            c: if same_color(bg, spec_default_bg()) {
                ' '
            } else {
                FULL_BLOCK
            },
        }
    } else if same_color(fg, spec_default_bg()) && invertible(cell.c) {
        AnsiChar { fg: bg, bg: spec_default_bg(), c: inverted(cell.c) }
    } else {
        AnsiChar { fg, bg, c: cell.c }
    }
}

/// The cells that stand for `cells` in 16 colors, where `prior_bg` is the
/// background of the cell before the first: each cell is brought down with
/// the background that the cell before it ended up with.
pub open spec fn downsampled_from(prior_bg: AnsiColor, cells: Seq<AnsiChar>) -> Seq<AnsiChar>
    decreases cells.len(),
{
    if cells.len() == 0 {
        Seq::empty()
    } else {
        let first = downsampled_cell(prior_bg, cells[0]);
        seq![first] + downsampled_from(first.bg, cells.drop_first())
    }
}

/// The document that stands for `cells` in 16 colors. Before the first cell
/// the background is the default.
pub open spec fn downsampled(cells: Seq<AnsiChar>) -> Seq<AnsiChar> {
    downsampled_from(spec_default_bg(), cells)
}

/// Brings one cell down to 16 colors; `prior_bg` is the background of the
/// cell before it, as already brought down.
pub fn downsample_cell(prior_bg: AnsiColor, cell: AnsiChar) -> (out: AnsiChar)
    ensures
        out == downsampled_cell(prior_bg, cell),
{
    let fg = cell.fg.to_ansi_16();
    let bg = cell.bg.to_ansi_16();
    if cell.c == ' ' && bg != default_bg() {
        // Prefer colored foreground blocks over colored spaces.
        AnsiChar { fg: bg, bg: prior_bg, c: FULL_BLOCK }
    } else if fg == bg {
        // If the foreground and background are the same, replace whatever is here with a space or block.
        if bg == default_bg() {
            AnsiChar { fg, bg, c: ' ' }
        } else {
            AnsiChar { fg, bg, c: FULL_BLOCK }
        }
    } else if fg == default_bg() && can_invert_char(cell.c) {
        // If the foreground is black, and we can "flip" this character, then do so.
        AnsiChar { fg: bg, bg: default_bg(), c: invert_char(cell.c) }
    } else {
        AnsiChar { fg, bg, c: cell.c }
    }
}

impl AnsiDocument {
    /// Brings the document down to 16 colors, cell by cell and in place.
    pub fn downsample(&mut self)
        ensures
            final(self)@ == downsampled(old(self)@),
    {
        let mut current_bg = default_bg();
        let n = self.chars.len();
        let mut i: usize = 0;
        assert(self.chars@.skip(0) =~= self.chars@);
        assert(self.chars@.take(0) + downsampled(self@) =~= downsampled(self@));
        while i < n
            invariant
                i <= n,
                n == self.chars@.len(),
                n == old(self).chars@.len(),
                self.chars@.skip(i as int) == old(self).chars@.skip(i as int),
                self.chars@.take(i as int) + downsampled_from(
                    current_bg,
                    old(self).chars@.skip(i as int),
                ) == downsampled(old(self)@),
            decreases n - i,
        {
            let ghost rest = old(self).chars@.skip(i as int);
            let ghost done = self.chars@.take(i as int);
            assert(self.chars@[i as int] == self.chars@.skip(i as int)[0]);
            assert(rest[0] == old(self).chars@[i as int]);
            let cell = downsample_cell(current_bg, self.chars[i]);
            self.chars.set(i, cell);
            current_bg = cell.bg;
            assert(rest.drop_first() =~= old(self).chars@.skip(i + 1));
            assert(self.chars@.skip(i + 1) =~= old(self).chars@.skip(i + 1));
            assert(self.chars@.take(i + 1) =~= done.push(cell));
            assert(done.push(cell) + downsampled_from(cell.bg, rest.drop_first()) =~= done + (
            seq![cell] + downsampled_from(cell.bg, rest.drop_first())));
            i += 1;
        }
        assert(old(self).chars@.skip(n as int) =~= Seq::<AnsiChar>::empty());
        assert(self.chars@.take(n as int) =~= self.chars@);
        assert(self@ =~= downsampled(old(self)@));
    }
}

} // verus!

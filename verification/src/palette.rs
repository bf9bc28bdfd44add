//! The text that converting gives names colors of the 16-color palette only.

use vstd::prelude::*;

use crate::ansi_parser::{color_change, parse, rendered, rendered_from, sgr, AnsiChar};
use crate::ansi_styles::{
    bg_form, fg_form, is_bg_code, is_fg_code, spec_default_bg, spec_default_fg, AnsiColor,
};
use crate::converted;
use crate::decimal::decimal;
use crate::downsample::downsampled;
use crate::fixed_point::lemma_downsampled_plain;
use crate::reparse::{
    lemma_parse_rendered, lemma_parse_sound, plain, plain_cell, printable, same_cell,
};

verus! {

/// `text` is a color change in the 16-color palette: nothing at all, the
/// reset, or one SGR sequence that holds a foreground code, a background
/// code, or a foreground code and a background code.
pub open spec fn is_palette_16_change(text: Seq<char>) -> bool {
    ||| text == Seq::<char>::empty()
    ||| text == sgr(seq!['0'])
    ||| exists|fg: u8| is_fg_code(fg) && text == sgr(decimal(fg as nat))
    ||| exists|bg: u8| is_bg_code(bg) && text == sgr(decimal(bg as nat))
    ||| exists|fg: u8, bg: u8|
        is_fg_code(fg) && is_bg_code(bg) && text == sgr(
            decimal(fg as nat) + seq![';'] + decimal(bg as nat),
        )
}

/// What is written for each cell of a document, in order: the color change
/// from the cell before it, and then its character.
pub open spec fn pieces_from(last_fg: AnsiColor, last_bg: AnsiColor, cells: Seq<AnsiChar>) -> Seq<
    Seq<char>,
>
    decreases cells.len(),
{
    if cells.len() == 0 {
        Seq::empty()
    } else {
        seq![color_change(last_fg, last_bg, cells[0]).push(cells[0].c)] + pieces_from(
            cells[0].fg,
            cells[0].bg,
            cells.drop_first(),
        )
    }
}

/// `piece` is a color change in the 16-color palette and then one printable
/// character.
pub open spec fn is_palette_16_piece(piece: Seq<char>) -> bool {
    piece.len() > 0 && is_palette_16_change(piece.drop_last()) && printable(piece.last())
}

/// The color change before a cell in 16 colors is a color change in the
/// 16-color palette.
pub proof fn lemma_color_change_in_palette(last_fg: AnsiColor, last_bg: AnsiColor, cell: AnsiChar)
    requires
        plain_cell(cell),
    ensures
        is_palette_16_change(color_change(last_fg, last_bg, cell)),
{
    let fg = fg_form(cell.fg->Ansi16_0);
    let bg = bg_form(cell.bg->Ansi16_0);
    assert(is_fg_code(fg) && is_bg_code(bg));
    assert(cell.fg.spec_fg_code() == decimal(fg as nat));
    assert(cell.bg.spec_bg_code() == decimal(bg as nat));
}

/// The text of a document is its pieces put together, and each piece of a
/// document in 16 colors is a color change in the 16-color palette and then
/// one printable character.
pub proof fn lemma_rendered_in_pieces(last_fg: AnsiColor, last_bg: AnsiColor, cells: Seq<AnsiChar>)
    requires
        plain(cells),
    ensures
        rendered_from(last_fg, last_bg, cells) == pieces_from(last_fg, last_bg, cells).flatten(),
        pieces_from(last_fg, last_bg, cells).len() == cells.len(),
        forall|i: int|
            0 <= i < cells.len() ==> is_palette_16_piece(
                #[trigger] pieces_from(last_fg, last_bg, cells)[i],
            ),
    decreases cells.len(),
{
    let pieces = pieces_from(last_fg, last_bg, cells);
    if cells.len() > 0 {
        let cell = cells[0];
        let rest = cells.drop_first();
        let head = color_change(last_fg, last_bg, cell).push(cell.c);
        let tail = pieces_from(cell.fg, cell.bg, rest);
        assert(plain(rest)) by {
            assert forall|i: int| 0 <= i < rest.len() implies plain_cell(#[trigger] rest[i]) by {
                assert(rest[i] == cells[i + 1]);
            }
        }
        lemma_rendered_in_pieces(cell.fg, cell.bg, rest);
        lemma_color_change_in_palette(last_fg, last_bg, cell);
        assert(head.drop_last() =~= color_change(last_fg, last_bg, cell));
        assert(pieces[0] == head);
        assert(pieces.drop_first() =~= tail);
        assert forall|i: int| 0 <= i < cells.len() implies is_palette_16_piece(
            #[trigger] pieces[i],
        ) by {
            if i > 0 {
                assert(pieces[i] == tail[i - 1]);
            }
        }
    }
}

/// Converted text is in 16 colors. Where a text can be converted, the result
/// is made of pieces, each of them a color change in the 16-color palette
/// and then one printable character, so that no SGR sequence in it selects a
/// color of the 256-color palette or an RGB color. Read again, the result is
/// a document in 16 colors.
pub proof fn lemma_converted_in_palette(text: Seq<char>)
    requires
        converted(text) is Ok,
    ensures
        ({
            let cells = downsampled(parse(text)->Ok_0);
            let pieces = pieces_from(spec_default_fg(), spec_default_bg(), cells);
            &&& plain(cells)
            &&& converted(text)->Ok_0 == rendered(cells)
            &&& converted(text)->Ok_0 == pieces.flatten()
            &&& forall|i: int| 0 <= i < pieces.len() ==> is_palette_16_piece(#[trigger] pieces[i])
            &&& parse(converted(text)->Ok_0) matches Ok(read) && plain(read)
        }),
{
    let cells = parse(text)->Ok_0;
    let down = downsampled(cells);
    lemma_parse_sound(text);
    lemma_downsampled_plain(spec_default_bg(), cells);
    lemma_rendered_in_pieces(spec_default_fg(), spec_default_bg(), down);
    lemma_parse_rendered(down);
    let read = parse(rendered(down))->Ok_0;
    assert forall|i: int| 0 <= i < read.len() implies plain_cell(#[trigger] read[i]) by {
        assert(same_cell(read[i], down[i]));
        assert(plain_cell(down[i]));
    }
}

} // verus!

//! Converting is stable: the 16-color text that a text is converted to is
//! converted to itself.

use vstd::prelude::*;

use crate::ansi_parser::{color_change, parse, rendered, rendered_from, AnsiChar};
use crate::ansi_styles::{
    is_palette_16, lemma_same_color_same_result, lemma_to_ansi_16_in_palette,
    lemma_to_ansi_16_settles, same_color, spec_default_bg, spec_default_fg, AnsiColor,
};
use crate::converted;
use crate::downsample::{downsampled, downsampled_cell, downsampled_from};
use crate::reparse::{
    lemma_parse_rendered, lemma_parse_sound, plain, plain_cell, same_cell, same_document, sound,
    sound_cell,
};

verus! {

/// Bringing a sound cell down gives a cell in 16 colors with a printable
/// character.
pub proof fn lemma_downsampled_cell_plain(prior_bg: AnsiColor, cell: AnsiChar)
    requires
        is_palette_16(prior_bg),
        sound_cell(cell),
    ensures
        plain_cell(downsampled_cell(prior_bg, cell)),
{
    lemma_to_ansi_16_in_palette(cell.fg);
    lemma_to_ansi_16_in_palette(cell.bg);
}

/// Bringing a sound document down gives as many cells, each in 16 colors
/// with a printable character.
pub proof fn lemma_downsampled_plain(prior_bg: AnsiColor, cells: Seq<AnsiChar>)
    requires
        is_palette_16(prior_bg),
        sound(cells),
    ensures
        downsampled_from(prior_bg, cells).len() == cells.len(),
        plain(downsampled_from(prior_bg, cells)),
    decreases cells.len(),
{
    if cells.len() > 0 {
        let first = downsampled_cell(prior_bg, cells[0]);
        let rest = cells.drop_first();
        lemma_downsampled_cell_plain(prior_bg, cells[0]);
        assert(sound(rest)) by {
            assert forall|i: int| 0 <= i < rest.len() implies sound_cell(#[trigger] rest[i]) by {
                assert(rest[i] == cells[i + 1]);
            }
        }
        lemma_downsampled_plain(first.bg, rest);
        let tail = downsampled_from(first.bg, rest);
        let all = downsampled_from(prior_bg, cells);
        assert forall|i: int| 0 <= i < all.len() implies plain_cell(#[trigger] all[i]) by {
            if i > 0 {
                assert(all[i] == tail[i - 1]);
            }
        }
    }
}

/// Documents that show the same are brought down to one and the same
/// document.
pub proof fn lemma_downsampled_of_same(prior_bg: AnsiColor, a: Seq<AnsiChar>, b: Seq<AnsiChar>)
    requires
        same_document(a, b),
    ensures
        downsampled_from(prior_bg, a) == downsampled_from(prior_bg, b),
    decreases a.len(),
{
    if a.len() > 0 {
        assert(same_cell(a[0], b[0]));
        lemma_same_color_same_result(a[0].fg, b[0].fg);
        lemma_same_color_same_result(a[0].bg, b[0].bg);
        let first = downsampled_cell(prior_bg, a[0]);
        assert(first == downsampled_cell(prior_bg, b[0]));
        assert(same_document(a.drop_first(), b.drop_first())) by {
            assert forall|i: int| 0 <= i < a.drop_first().len() implies same_cell(
                #[trigger] a.drop_first()[i],
                b.drop_first()[i],
            ) by {
                assert(same_cell(a[i + 1], b[i + 1]));
            }
        }
        lemma_downsampled_of_same(first.bg, a.drop_first(), b.drop_first());
    }
}

/// A cell that was brought down shows the same when it is brought down
/// again, whatever the background before it.
pub proof fn lemma_downsampled_cell_settles(
    prior_bg: AnsiColor,
    again_bg: AnsiColor,
    cell: AnsiChar,
)
    requires
        prior_bg is Ansi16,
    ensures
        downsampled_cell(prior_bg, cell).fg is Ansi16,
        downsampled_cell(prior_bg, cell).bg is Ansi16,
        same_cell(
            downsampled_cell(again_bg, downsampled_cell(prior_bg, cell)),
            downsampled_cell(prior_bg, cell),
        ),
{
    let once = downsampled_cell(prior_bg, cell);
    lemma_to_ansi_16_settles(cell.fg);
    lemma_to_ansi_16_settles(cell.bg);
    lemma_to_ansi_16_settles(prior_bg);
    lemma_to_ansi_16_settles(once.fg);
    lemma_to_ansi_16_settles(once.bg);
}

/// A document that was brought down shows the same when it is brought down
/// again.
pub proof fn lemma_downsampled_settles(
    prior_bg: AnsiColor,
    again_bg: AnsiColor,
    cells: Seq<AnsiChar>,
)
    requires
        prior_bg is Ansi16,
    ensures
        same_document(
            downsampled_from(again_bg, downsampled_from(prior_bg, cells)),
            downsampled_from(prior_bg, cells),
        ),
    decreases cells.len(),
{
    if cells.len() > 0 {
        let first = downsampled_cell(prior_bg, cells[0]);
        let rest = downsampled_from(first.bg, cells.drop_first());
        let once = downsampled_from(prior_bg, cells);
        assert(once[0] == first);
        assert(once.drop_first() =~= rest);
        lemma_downsampled_cell_settles(prior_bg, again_bg, cells[0]);
        let second = downsampled_cell(again_bg, first);
        lemma_downsampled_settles(first.bg, second.bg, cells.drop_first());
        let twice = downsampled_from(again_bg, once);
        let twice_rest = downsampled_from(second.bg, rest);
        assert(twice =~= seq![second] + twice_rest);
        assert forall|i: int| 0 <= i < twice.len() implies same_cell(
            #[trigger] twice[i],
            once[i],
        ) by {
            if i > 0 {
                assert(twice[i] == twice_rest[i - 1]);
                assert(once[i] == rest[i - 1]);
                assert(same_cell(twice_rest[i - 1], rest[i - 1]));
            }
        }
    }
}

/// Documents that show the same are written as one and the same text.
pub proof fn lemma_rendered_of_same(
    a_fg: AnsiColor,
    a_bg: AnsiColor,
    a: Seq<AnsiChar>,
    b_fg: AnsiColor,
    b_bg: AnsiColor,
    b: Seq<AnsiChar>,
)
    requires
        same_color(a_fg, b_fg),
        same_color(a_bg, b_bg),
        same_document(a, b),
    ensures
        rendered_from(a_fg, a_bg, a) == rendered_from(b_fg, b_bg, b),
    decreases a.len(),
{
    if a.len() > 0 {
        assert(same_cell(a[0], b[0]));
        lemma_same_color_same_result(a[0].fg, b[0].fg);
        lemma_same_color_same_result(a[0].bg, b[0].bg);
        assert(color_change(a_fg, a_bg, a[0]) == color_change(b_fg, b_bg, b[0]));
        assert(same_document(a.drop_first(), b.drop_first())) by {
            assert forall|i: int| 0 <= i < a.drop_first().len() implies same_cell(
                #[trigger] a.drop_first()[i],
                b.drop_first()[i],
            ) by {
                assert(same_cell(a[i + 1], b[i + 1]));
            }
        }
        lemma_rendered_of_same(a[0].fg, a[0].bg, a.drop_first(), b[0].fg, b[0].bg, b.drop_first());
    }
}

/// Converting is stable. Where a text can be converted, the result can be
/// converted too, and is converted to itself.
pub proof fn lemma_converted_is_stable(text: Seq<char>)
    requires
        converted(text) is Ok,
    ensures
        converted(converted(text)->Ok_0) == converted(text),
{
    let cells = parse(text)->Ok_0;
    let down = downsampled(cells);
    let out = rendered(down);
    lemma_parse_sound(text);
    lemma_downsampled_plain(spec_default_bg(), cells);
    lemma_parse_rendered(down);
    let read = parse(out)->Ok_0;
    lemma_downsampled_of_same(spec_default_bg(), read, down);
    lemma_downsampled_settles(spec_default_bg(), spec_default_bg(), cells);
    lemma_rendered_of_same(
        spec_default_fg(),
        spec_default_bg(),
        downsampled(down),
        spec_default_fg(),
        spec_default_bg(),
        down,
    );
}

} // verus!

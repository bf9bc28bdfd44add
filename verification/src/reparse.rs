//! What reading gives: every document that is read holds well-formed colors
//! and printable characters, and the text that a 16-color document is written
//! as reads back as that document.

use vstd::prelude::*;

use crate::ansi_parser::{
    apply_sgr, color_change, parse, rendered, rendered_from, sgr, AnsiChar, Machine,
    MalformedEscape,
};
use crate::ansi_styles::{
    bg_form, fg_form, is_bg_code, is_fg_code, is_palette_16, same_color, spec_default_bg,
    spec_default_fg, AnsiColor,
};
use crate::decimal::{decimal, digit_char};
use crate::scanner::{Collected, ScanState, MAX_PARAMS};

verus! {

/// `c` is a character that reading turns into a cell: the line feed, and
/// every character from the space upwards.
pub open spec fn printable(c: char) -> bool {
    c == '\n' || c >= ' '
}

/// The colors of `cell` are well formed and its character is printable.
pub open spec fn sound_cell(cell: AnsiChar) -> bool {
    cell.fg.well_formed() && cell.bg.well_formed() && printable(cell.c)
}

/// Every cell of `cells` is sound.
pub open spec fn sound(cells: Seq<AnsiChar>) -> bool {
    forall|i: int| 0 <= i < cells.len() ==> sound_cell(#[trigger] cells[i])
}

/// The colors of `cell` are of the 16-color palette and its character is
/// printable.
pub open spec fn plain_cell(cell: AnsiChar) -> bool {
    is_palette_16(cell.fg) && is_palette_16(cell.bg) && printable(cell.c)
}

/// Every cell of `cells` is in 16 colors, with a printable character.
pub open spec fn plain(cells: Seq<AnsiChar>) -> bool {
    forall|i: int| 0 <= i < cells.len() ==> plain_cell(#[trigger] cells[i])
}

/// The pen and the cells of `m` hold well-formed colors, and the cells hold
/// printable characters.
pub open spec fn sound_machine(m: Machine) -> bool {
    m.fg.well_formed() && m.bg.well_formed() && sound(m.cells)
}

/// SGR parameters move a well-formed pen to well-formed colors.
pub proof fn lemma_apply_sgr_well_formed(fg: AnsiColor, bg: AnsiColor, params: Seq<u16>)
    requires
        fg.well_formed(),
        bg.well_formed(),
    ensures
        apply_sgr(fg, bg, params) matches Ok(pen) ==> pen.0.well_formed() && pen.1.well_formed(),
    decreases params.len(),
{
    if params.len() > 0 {
        let code = params[0];
        if code == 38 || code == 48 {
            if params.len() >= 3 && params[1] == 5 {
                let color = AnsiColor::Ansi256((params[2] % 256) as u8);
                if code == 38 {
                    lemma_apply_sgr_well_formed(color, bg, params.skip(3));
                } else {
                    lemma_apply_sgr_well_formed(fg, color, params.skip(3));
                }
            } else if params.len() >= 5 && params[1] == 2 {
                let color = AnsiColor::Rgb(
                    (params[2] % 256) as u8,
                    (params[3] % 256) as u8,
                    (params[4] % 256) as u8,
                );
                if code == 38 {
                    lemma_apply_sgr_well_formed(color, bg, params.skip(5));
                } else {
                    lemma_apply_sgr_well_formed(fg, color, params.skip(5));
                }
            }
        } else if code < 256 && is_fg_code(code as u8) {
            lemma_apply_sgr_well_formed(AnsiColor::Ansi16(code as u8), bg, params.skip(1));
        } else if code < 256 && is_bg_code(code as u8) {
            lemma_apply_sgr_well_formed(fg, AnsiColor::Ansi16(code as u8), params.skip(1));
        } else if code == 0 {
            lemma_apply_sgr_well_formed(spec_default_fg(), spec_default_bg(), params.skip(1));
        }
    }
}

/// One step of reading keeps the machine sound.
pub proof fn lemma_step_sound(m: Machine, c: char)
    requires
        sound_machine(m),
    ensures
        m.step(c) matches Ok(next) ==> sound_machine(next),
{
    lemma_apply_sgr_well_formed(m.fg, m.bg, m.params.closed_heads());
}

/// Reading a text keeps the machine sound.
pub proof fn lemma_run_sound(m: Machine, text: Seq<char>)
    requires
        sound_machine(m),
    ensures
        m.run(text) matches Ok(last) ==> sound_machine(last),
    decreases text.len(),
{
    if text.len() > 0 {
        lemma_step_sound(m, text[0]);
        if let Ok(next) = m.step(text[0]) {
            lemma_run_sound(next, text.drop_first());
        }
    }
}

/// Every document that is read out of a text is sound: its colors are well
/// formed and its characters printable.
pub proof fn lemma_parse_sound(text: Seq<char>)
    ensures
        parse(text) matches Ok(cells) ==> sound(cells),
{
    lemma_run_sound(Machine::initial(), text);
}

/// Reading two texts one after the other is reading the one text that they
/// make together.
pub proof fn lemma_run_concat(m: Machine, first: Seq<char>, second: Seq<char>)
    ensures
        m.run(first + second) == match m.run(first) {
            Ok(mid) => mid.run(second),
            Err(e) => Err(e),
        },
    decreases first.len(),
{
    if first.len() == 0 {
        assert(first + second =~= second);
    } else {
        assert((first + second)[0] == first[0]);
        assert((first + second).drop_first() =~= first.drop_first() + second);
        if let Ok(next) = m.step(first[0]) {
            lemma_run_concat(next, first.drop_first(), second);
        }
    }
}

/// Reading a text and then one more character is reading the text with the
/// character at its end.
pub proof fn lemma_run_push(m: Machine, text: Seq<char>, c: char)
    ensures
        m.run(text.push(c)) == match m.run(text) {
            Ok(mid) => mid.step(c),
            Err(e) => Err(e),
        },
{
    let last = seq![c];
    assert(text.push(c) =~= text + last);
    lemma_run_concat(m, text, last);
    assert(last.drop_first() =~= Seq::<char>::empty());
    if let Ok(mid) = m.run(text) {
        assert(mid.run(last) == mid.step(c)) by {
            assert(last[0] == c);
            if let Ok(next) = mid.step(c) {
                assert(next.run(last.drop_first()) == Ok::<Machine, MalformedEscape>(next));
            }
        }
    }
}

/// In the parameters of a control sequence, the decimal text of `n` reads as
/// the number `n`.
pub proof fn lemma_run_decimal(m: Machine, n: nat)
    requires
        m.state == ScanState::CsiEntry || m.state == ScanState::CsiParam,
        m.params.current == 0,
        m.params.count < MAX_PARAMS,
        n <= 0xffff,
    ensures
        m.run(decimal(n)) == Ok::<Machine, MalformedEscape>(
            Machine {
                state: ScanState::CsiParam,
                params: Collected { current: n as u16, ..m.params },
                ..m
            },
        ),
    decreases n,
{
    if n < 10 {
        let c = digit_char(n as int);
        assert(decimal(n) =~= Seq::<char>::empty().push(c));
        lemma_run_push(m, Seq::empty(), c);
    } else {
        let c = digit_char((n % 10) as int);
        lemma_run_decimal(m, n / 10);
        lemma_run_push(m, decimal(n / 10), c);
    }
}

/// The machine after an SGR sequence with the parameters `heads` is read on
/// the ground: back on the ground, with the pen moved; or the reason why the
/// parameters are malformed.
pub open spec fn after_sgr(m: Machine, heads: Seq<u16>) -> Result<Machine, MalformedEscape> {
    match apply_sgr(m.fg, m.bg, heads) {
        Ok((fg, bg)) => Ok(
            Machine { state: ScanState::Ground, params: Collected::cleared(), fg, bg, ..m },
        ),
        Err(e) => Err(e),
    }
}

/// The machine just after `ESC [` is read.
spec fn entered(m: Machine) -> Machine {
    Machine { state: ScanState::CsiEntry, params: Collected::cleared(), ..m }
}

/// Reading `ESC [` and then `rest` is reading `rest` from the entry of a
/// control sequence.
proof fn lemma_run_csi(m: Machine, rest: Seq<char>)
    ensures
        m.run(seq!['\u{1b}', '['] + rest) == entered(m).run(rest),
{
    let none = Seq::<char>::empty();
    let intro = seq!['\u{1b}', '['];
    assert(intro =~= none.push('\u{1b}').push('['));
    lemma_run_push(m, none, '\u{1b}');
    lemma_run_push(m, none.push('\u{1b}'), '[');
    lemma_run_concat(m, intro, rest);
}

/// An SGR sequence with one number reads as that one parameter.
pub proof fn lemma_run_sgr_one(m: Machine, n: nat)
    requires
        n <= 0xffff,
    ensures
        m.run(sgr(decimal(n))) == after_sgr(m, seq![n as u16]),
{
    let body = decimal(n);
    assert(sgr(body) =~= seq!['\u{1b}', '['] + body.push('m'));
    lemma_run_csi(m, body.push('m'));
    lemma_run_decimal(entered(m), n);
    lemma_run_push(entered(m), body, 'm');
    let read = entered(m).run(body)->Ok_0;
    assert(read.params.closed_heads() =~= seq![n as u16]);
}

/// An SGR sequence with two numbers reads as those two parameters.
pub proof fn lemma_run_sgr_two(m: Machine, a: nat, b: nat)
    requires
        a <= 0xffff,
        b <= 0xffff,
    ensures
        m.run(sgr(decimal(a) + seq![';'] + decimal(b))) == after_sgr(
            m,
            seq![a as u16, b as u16],
        ),
{
    let body = decimal(a) + seq![';'] + decimal(b);
    assert(sgr(body) =~= seq!['\u{1b}', '['] + body.push('m'));
    lemma_run_csi(m, body.push('m'));
    let start = entered(m);
    lemma_run_decimal(start, a);
    lemma_run_push(start, decimal(a), ';');
    let first = start.run(decimal(a).push(';'))->Ok_0;
    assert(first.params.heads =~= seq![a as u16]);
    lemma_run_decimal(first, b);
    lemma_run_concat(start, decimal(a).push(';'), decimal(b));
    assert(decimal(a).push(';') + decimal(b) =~= body);
    lemma_run_push(start, body, 'm');
    let read = start.run(body)->Ok_0;
    assert(read.params.closed_heads() =~= seq![a as u16, b as u16]);
}

/// The two cells show the same: their characters are the same and their
/// colors are equal.
pub open spec fn same_cell(a: AnsiChar, b: AnsiChar) -> bool {
    a.c == b.c && same_color(a.fg, b.fg) && same_color(a.bg, b.bg)
}

/// The two documents show the same, cell for cell.
pub open spec fn same_document(a: Seq<AnsiChar>, b: Seq<AnsiChar>) -> bool {
    a.len() == b.len() && forall|i: int| 0 <= i < a.len() ==> same_cell(#[trigger] a[i], b[i])
}

/// What is written for one cell of a 16-color document reads back as that
/// cell: on the ground, with the pen in the colors last written, the color
/// change and the character of the cell add one cell that shows the same, and
/// leave the pen in its colors.
pub proof fn lemma_reread_cell(m: Machine, last_fg: AnsiColor, last_bg: AnsiColor, cell: AnsiChar)
    requires
        m.state == ScanState::Ground,
        same_color(m.fg, last_fg),
        same_color(m.bg, last_bg),
        plain_cell(cell),
    ensures
        m.run(color_change(last_fg, last_bg, cell).push(cell.c)) matches Ok(next) && {
            &&& next.state == ScanState::Ground
            &&& next.cells == m.cells.push(next.cell(cell.c))
            &&& same_color(next.fg, cell.fg)
            &&& same_color(next.bg, cell.bg)
        },
{
    reveal_with_fuel(apply_sgr, 3);
    let change = color_change(last_fg, last_bg, cell);
    let fg = fg_form(cell.fg->Ansi16_0);
    let bg = bg_form(cell.bg->Ansi16_0);
    let fg_differs = !same_color(last_fg, cell.fg);
    let bg_differs = !same_color(last_bg, cell.bg);
    lemma_run_push(m, change, cell.c);
    if same_color(cell.bg, spec_default_bg()) && same_color(cell.fg, spec_default_fg()) && (
    bg_differs || fg_differs) {
        assert(decimal(0) =~= seq!['0']);
        lemma_run_sgr_one(m, 0);
        assert(seq![0u16].skip(1) =~= Seq::<u16>::empty());
    } else if bg_differs && fg_differs {
        lemma_run_sgr_two(m, fg as nat, bg as nat);
        let heads = seq![fg as u16, bg as u16];
        assert(heads.skip(1) =~= seq![bg as u16]);
        assert(heads.skip(1).skip(1) =~= Seq::<u16>::empty());
    } else if fg_differs {
        lemma_run_sgr_one(m, fg as nat);
        assert(seq![fg as u16].skip(1) =~= Seq::<u16>::empty());
    } else if bg_differs {
        lemma_run_sgr_one(m, bg as nat);
        assert(seq![bg as u16].skip(1) =~= Seq::<u16>::empty());
    } else {
        assert(change =~= Seq::<char>::empty());
    }
}

/// The text that a 16-color document is written as reads back, from the
/// ground and with the pen in the colors last written, as cells that show
/// the same as the document, added to the cells that were there.
pub proof fn lemma_reread(
    m: Machine,
    last_fg: AnsiColor,
    last_bg: AnsiColor,
    cells: Seq<AnsiChar>,
)
    requires
        m.state == ScanState::Ground,
        same_color(m.fg, last_fg),
        same_color(m.bg, last_bg),
        plain(cells),
    ensures
        m.run(rendered_from(last_fg, last_bg, cells)) matches Ok(last) && {
            &&& last.state == ScanState::Ground
            &&& last.cells.len() == m.cells.len() + cells.len()
            &&& last.cells.take(m.cells.len() as int) == m.cells
            &&& same_document(last.cells.skip(m.cells.len() as int), cells)
        },
    decreases cells.len(),
{
    if cells.len() == 0 {
        assert(m.cells.take(m.cells.len() as int) =~= m.cells);
    } else {
        let cell = cells[0];
        let rest = cells.drop_first();
        let head = color_change(last_fg, last_bg, cell).push(cell.c);
        lemma_reread_cell(m, last_fg, last_bg, cell);
        let next = m.run(head)->Ok_0;
        assert(plain(rest)) by {
            assert forall|i: int| 0 <= i < rest.len() implies plain_cell(#[trigger] rest[i]) by {
                assert(rest[i] == cells[i + 1]);
            }
        }
        lemma_reread(next, cell.fg, cell.bg, rest);
        lemma_run_concat(m, head, rendered_from(cell.fg, cell.bg, rest));
        let last = next.run(rendered_from(cell.fg, cell.bg, rest))->Ok_0;
        let n = m.cells.len() as int;
        assert(last.cells.take(n) =~= m.cells) by {
            assert(last.cells.take(n + 1) == next.cells);
            assert forall|i: int| 0 <= i < n implies last.cells[i] == m.cells[i] by {
                assert(last.cells.take(n + 1)[i] == last.cells[i]);
            }
        }
        let tail = last.cells.skip(n);
        assert(same_document(tail, cells)) by {
            assert forall|i: int| 0 <= i < tail.len() implies same_cell(
                #[trigger] tail[i],
                cells[i],
            ) by {
                if i == 0 {
                    assert(last.cells.take(n + 1)[n] == last.cells[n]);
                } else {
                    assert(tail[i] == last.cells.skip(n + 1)[i - 1]);
                    assert(cells[i] == rest[i - 1]);
                }
            }
        }
    }
}

/// The text that a 16-color document is written as can be read, and reads as
/// a document that shows the same.
pub proof fn lemma_parse_rendered(cells: Seq<AnsiChar>)
    requires
        plain(cells),
    ensures
        parse(rendered(cells)) matches Ok(read) && same_document(read, cells),
{
    lemma_reread(Machine::initial(), spec_default_fg(), spec_default_bg(), cells);
    let last = Machine::initial().run(rendered(cells))->Ok_0;
    assert(last.cells.skip(0) =~= last.cells);
}

} // verus!

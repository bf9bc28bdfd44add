//! The document of colored cells, the parser that builds it from text and the
//! writer that turns it into text again.

use vstd::prelude::*;
use vstd::std_specs::iter::IteratorSpec;
use vstd::string::*;

use crate::ansi_styles::{
    default_bg, default_fg, is_bg_code, is_fg_code, same_color, spec_default_bg, spec_default_fg,
    AnsiColor,
};
use crate::scanner::{next_state, transition, Action, Collected, ParamCollector, ScanState};

verus! {

/// Represents a character with ansi color information.
#[derive(Debug, Clone, Copy)]
pub struct AnsiChar {
    pub fg: AnsiColor,
    pub bg: AnsiColor,
    pub c: char,
}

/// Represents a parsed ANSI document: its cells in reading order.
pub struct AnsiDocument {
    pub chars: Vec<AnsiChar>,
}

impl View for AnsiDocument {
    type V = Seq<AnsiChar>;

    open spec fn view(&self) -> Seq<AnsiChar> {
        self.chars@
    }
}

/// Why a text could not be read: an SGR sequence in it is malformed.
#[derive(Debug, Clone, Copy, PartialEq, Eq, Structural)]
pub enum MalformedEscape {
    /// `38` or `48` is followed by a color mode that is neither `5` nor `2`.
    /// The mode is kept.
    UnknownColorMode(u16),
    /// `38` or `48` is not followed by the color mode and all the numbers
    /// that the mode takes.
    MissingParameter,
    /// A parameter that stands where a code is expected is neither a
    /// 16-color code, nor `38`, `48` or `0`. The parameter is kept.
    UnhandledCode(u16),
}

/// The pen colors after the SGR parameters `params` are applied, from left to
/// right, to the pen colors `fg` and `bg`; or the reason why the parameters
/// are malformed.
pub open spec fn apply_sgr(fg: AnsiColor, bg: AnsiColor, params: Seq<u16>) -> Result<
    (AnsiColor, AnsiColor),
    MalformedEscape,
>
    decreases params.len(),
{
    if params.len() == 0 {
        Ok((fg, bg))
    } else {
        let code = params[0];
        if code == 38 || code == 48 {
            if params.len() < 2 {
                Err(MalformedEscape::MissingParameter)
            } else if params[1] == 5 {
                if params.len() < 3 {
                    Err(MalformedEscape::MissingParameter)
                } else {
                    let color = AnsiColor::Ansi256((params[2] % 256) as u8);
                    if code == 38 {
                        apply_sgr(color, bg, params.skip(3))
                    } else {
                        apply_sgr(fg, color, params.skip(3))
                    }
                }
            } else if params[1] == 2 {
                if params.len() < 5 {
                    Err(MalformedEscape::MissingParameter)
                } else {
                    let color = AnsiColor::Rgb(
                        (params[2] % 256) as u8,
                        (params[3] % 256) as u8,
                        (params[4] % 256) as u8,
                    );
                    if code == 38 {
                        apply_sgr(color, bg, params.skip(5))
                    } else {
                        apply_sgr(fg, color, params.skip(5))
                    }
                }
            } else {
                Err(MalformedEscape::UnknownColorMode(params[1]))
            }
        } else if code < 256 && is_fg_code(code as u8) {
            apply_sgr(AnsiColor::Ansi16(code as u8), bg, params.skip(1))
        } else if code < 256 && is_bg_code(code as u8) {
            apply_sgr(fg, AnsiColor::Ansi16(code as u8), params.skip(1))
        } else if code == 0 {
            apply_sgr(spec_default_fg(), spec_default_bg(), params.skip(1))
        } else {
            Err(MalformedEscape::UnhandledCode(code))
        }
    }
}

/// Builds a document from what the scan of a text finds.
///
/// The parser holds the pen: the colors that the next character is drawn
/// with. Every character that it is told to print becomes a cell in the
/// colors of the pen.
pub struct AnsiParser {
    pub current_fg: AnsiColor,
    pub current_bg: AnsiColor,
    pub output: Vec<AnsiChar>,
}

impl AnsiParser {
    /// The colors of the pen: foreground, background.
    pub open spec fn pen(self) -> (AnsiColor, AnsiColor) {
        (self.current_fg, self.current_bg)
    }

    /// A parser with the pen in the default colors and no cell yet.
    pub fn new() -> (parser: Self)
        ensures
            parser.current_fg == spec_default_fg(),
            parser.current_bg == spec_default_bg(),
            parser.output@ == Seq::<AnsiChar>::empty(),
    {
        Self { current_bg: default_bg(), current_fg: default_fg(), output: Vec::new() }
    }

    /// Adds the character `c` as a cell in the colors of the pen.
    pub fn print(&mut self, c: char)
        ensures
            final(self).current_fg == old(self).current_fg,
            final(self).current_bg == old(self).current_bg,
            final(self).output@ == old(self).output@.push(
                AnsiChar { fg: old(self).current_fg, bg: old(self).current_bg, c },
            ),
    {
        self.output.push(AnsiChar { fg: self.current_fg, bg: self.current_bg, c });
    }

    /// Carries out a control character: a line feed becomes a cell in the
    /// colors of the pen, so that a run of color can go over a line break.
    /// Every other control character is dropped.
    pub fn execute(&mut self, byte: u8)
        ensures
            final(self).current_fg == old(self).current_fg,
            final(self).current_bg == old(self).current_bg,
            final(self).output@ == if byte == 0x0a {
                old(self).output@.push(
                    AnsiChar { fg: old(self).current_fg, bg: old(self).current_bg, c: '\n' },
                )
            } else {
                old(self).output@
            },
    {
        if byte == 0x0a {
            self.output.push(AnsiChar { fg: self.current_fg, bg: self.current_bg, c: '\n' });
        }
    }

    /// Acts on a control sequence with the parameters `params` and the final
    /// character `action`. Only SGR, the sequence that ends in `m`, means
    /// anything here: its parameters move the pen. If they are malformed the
    /// pen stays where it was and the reason is returned. The cells are left
    /// alone in every case.
    pub fn csi_dispatch(&mut self, params: &Vec<u16>, action: char) -> (r: Result<
        (),
        MalformedEscape,
    >)
        ensures
            final(self).output@ == old(self).output@,
            action != 'm' ==> r is Ok && final(self).pen() == old(self).pen(),
            action == 'm' ==> match apply_sgr(
                old(self).current_fg,
                old(self).current_bg,
                params@,
            ) {
                Ok(pen) => r is Ok && final(self).pen() == pen,
                Err(e) => r == Err::<(), MalformedEscape>(e) && final(self).pen() == old(self).pen(),
            },
    {
        if action != 'm' {
            return Ok(());
        }
        let mut fg = self.current_fg;
        let mut bg = self.current_bg;
        let n = params.len();
        let mut i: usize = 0;
        assert(params@.skip(0) =~= params@);
        while i < n
            invariant
                action == 'm',
                i <= n,
                n == params@.len(),
                apply_sgr(fg, bg, params@.skip(i as int)) == apply_sgr(
                    old(self).current_fg,
                    old(self).current_bg,
                    params@,
                ),
                *self == *old(self),
            decreases n - i,
        {
            let ghost rest = params@.skip(i as int);
            assert(rest.len() == n - i);
            assert(rest[0] == params@[i as int]);
            let code = params[i];
            if code == 38 || code == 48 {
                if n - i < 2 {
                    return Err(MalformedEscape::MissingParameter);
                }
                assert(rest[1] == params@[i + 1]);
                let mode = params[i + 1];
                let color;
                if mode == 5 {
                    if n - i < 3 {
                        return Err(MalformedEscape::MissingParameter);
                    }
                    assert(rest[2] == params@[i + 2]);
                    color = AnsiColor::Ansi256((params[i + 2] % 256) as u8);
                    assert(rest.skip(3) =~= params@.skip(i + 3));
                    i += 3;
                } else if mode == 2 {
                    if n - i < 5 {
                        return Err(MalformedEscape::MissingParameter);
                    }
                    assert(rest[2] == params@[i + 2]);
                    assert(rest[3] == params@[i + 3]);
                    assert(rest[4] == params@[i + 4]);
                    color = AnsiColor::Rgb(
                        (params[i + 2] % 256) as u8,
                        (params[i + 3] % 256) as u8,
                        (params[i + 4] % 256) as u8,
                    );
                    assert(rest.skip(5) =~= params@.skip(i + 5));
                    i += 5;
                } else {
                    return Err(MalformedEscape::UnknownColorMode(mode));
                }
                if code == 38 {
                    fg = color;
                } else {
                    bg = color;
                }
            } else {
                assert(rest.skip(1) =~= params@.skip(i + 1));
                if (30 <= code && code <= 37) || (90 <= code && code <= 97) {
                    fg = AnsiColor::Ansi16(code as u8);
                } else if (40 <= code && code <= 47) || (100 <= code && code <= 107) {
                    bg = AnsiColor::Ansi16(code as u8);
                } else if code == 0 {
                    fg = default_fg();
                    bg = default_bg();
                } else {
                    return Err(MalformedEscape::UnhandledCode(code));
                }
                i += 1;
            }
        }
        self.current_fg = fg;
        self.current_bg = bg;
        Ok(())
    }
}

/// The state of reading a text, as contracts see it: where the scan stands,
/// the parameters collected, the pen, and the cells so far.
pub struct Machine {
    pub state: ScanState,
    pub params: Collected,
    pub fg: AnsiColor,
    pub bg: AnsiColor,
    pub cells: Seq<AnsiChar>,
}

impl Machine {
    /// The state before anything is read: in plain text, the pen in the
    /// default colors, no cells.
    pub open spec fn initial() -> Machine {
        Machine {
            state: ScanState::Ground,
            params: Collected::cleared(),
            fg: spec_default_fg(),
            bg: spec_default_bg(),
            cells: Seq::empty(),
        }
    }

    /// The character `c` as a cell in the colors of the pen.
    pub open spec fn cell(self, c: char) -> AnsiChar {
        AnsiChar { fg: self.fg, bg: self.bg, c }
    }

    /// The state after the character `c` is read, or the reason why `c` ends
    /// a malformed SGR sequence.
    ///
    /// Text becomes a cell; so does a line feed, wherever it is carried out.
    /// The parameters start afresh after ESC, after `ESC [` and after the end
    /// of a control sequence. A control sequence that ends in `m` moves the
    /// pen; every other sequence is read to its end and changes nothing.
    pub open spec fn step(self, c: char) -> Result<Machine, MalformedEscape> {
        let (state, action) = transition(self.state, c);
        match action {
            Action::Nop => Ok(
                Machine {
                    state,
                    params: if state == ScanState::Escape || state == ScanState::CsiEntry {
                        Collected::cleared()
                    } else {
                        self.params
                    },
                    ..self
                },
            ),
            Action::Print => Ok(Machine { state, cells: self.cells.push(self.cell(c)), ..self }),
            Action::Execute => Ok(
                Machine {
                    state,
                    cells: if c == '\n' {
                        self.cells.push(self.cell(c))
                    } else {
                        self.cells
                    },
                    ..self
                },
            ),
            Action::Param => Ok(Machine { state, params: self.params.collected(c), ..self }),
            Action::CsiDispatch => {
                if c == 'm' {
                    match apply_sgr(self.fg, self.bg, self.params.closed_heads()) {
                        Ok((fg, bg)) => Ok(
                            Machine { state, params: Collected::cleared(), fg, bg, ..self },
                        ),
                        Err(e) => Err(e),
                    }
                } else {
                    Ok(Machine { state, params: Collected::cleared(), ..self })
                }
            },
        }
    }

    /// The state after the characters of `text` are read one after another,
    /// or the reason why the first malformed SGR sequence in it is malformed.
    pub open spec fn run(self, text: Seq<char>) -> Result<Machine, MalformedEscape>
        decreases text.len(),
    {
        if text.len() == 0 {
            Ok(self)
        } else {
            match self.step(text[0]) {
                Ok(next) => next.run(text.drop_first()),
                Err(e) => Err(e),
            }
        }
    }
}

/// The cells that `text` describes, or the reason why the first malformed SGR
/// sequence in it is malformed.
pub open spec fn parse(text: Seq<char>) -> Result<Seq<AnsiChar>, MalformedEscape> {
    match Machine::initial().run(text) {
        Ok(machine) => Ok(machine.cells),
        Err(e) => Err(e),
    }
}

/// Scans a text for escape sequences, character by character, and tells an
/// [`AnsiParser`] what it finds.
pub struct EscapeScanner {
    pub state: ScanState,
    pub params: ParamCollector,
}

/// The state of reading that a scanner and a parser hold between them.
pub open spec fn machine(scanner: EscapeScanner, parser: AnsiParser) -> Machine {
    Machine {
        state: scanner.state,
        params: scanner.params@,
        fg: parser.current_fg,
        bg: parser.current_bg,
        cells: parser.output@,
    }
}

impl EscapeScanner {
    /// The scanner holds no more parameters than it has room for.
    pub open spec fn wf(self) -> bool {
        self.params.wf()
    }

    /// A scanner at the start of a text.
    pub fn new() -> (scanner: Self)
        ensures
            scanner.state == ScanState::Ground,
            scanner.params@ == Collected::cleared(),
            scanner.wf(),
    {
        EscapeScanner { state: ScanState::Ground, params: ParamCollector::new() }
    }

    /// Reads the character `c` and has `performer` act on it. The two
    /// together go through one step of reading; a malformed SGR sequence is
    /// reported at its final character, and leaves the pen and the cells of
    /// `performer` as they were.
    pub fn advance(&mut self, performer: &mut AnsiParser, c: char) -> (r: Result<
        (),
        MalformedEscape,
    >)
        requires
            old(self).wf(),
        ensures
            match machine(*old(self), *old(performer)).step(c) {
                Ok(next) => r is Ok && machine(*final(self), *final(performer)) == next && final(
                    self).wf(),
                Err(e) => {
                    &&& r == Err::<(), MalformedEscape>(e)
                    &&& final(performer).pen() == old(performer).pen()
                    &&& final(performer).output@ == old(performer).output@
                    &&& final(self).wf()
                },
            },
    {
        let (state, action) = next_state(self.state, c);
        match action {
            Action::Nop => {
                match state {
                    ScanState::Escape | ScanState::CsiEntry => self.params.clear(),
                    _ => {},
                }
            },
            Action::Print => performer.print(c),
            Action::Execute => performer.execute(c as u8),
            Action::Param => self.params.collect(c),
            Action::CsiDispatch => {
                let params = self.params.take();
                match performer.csi_dispatch(&params, c) {
                    Ok(()) => {},
                    Err(e) => {
                        return Err(e);
                    },
                }
            },
        }
        self.state = state;
        Ok(())
    }
}

impl AnsiDocument {
    /// Reads an ANSI text into a document. A text that holds a malformed SGR
    /// sequence gives no document but the reason.
    pub fn from_string(input: &str) -> (r: Result<AnsiDocument, MalformedEscape>)
        ensures
            match parse(input@) {
                Ok(cells) => r is Ok && r->Ok_0@ == cells,
                Err(e) => r is Err && r->Err_0 == e,
            },
    {
        let mut performer = AnsiParser::new();
        let mut scanner = EscapeScanner::new();
        let mut chars = input.chars();
        loop
            invariant
                scanner.wf(),
                chars.decrease() is Some,
                machine(scanner, performer).run(chars.remaining()) == Machine::initial().run(input@),
            ensures
                chars.remaining().len() == 0,
            decreases chars.decrease()->0,
        {
            match chars.next() {
                None => {
                    break ;
                },
                Some(c) => {
                    match scanner.advance(&mut performer, c) {
                        Ok(()) => {},
                        Err(e) => {
                            return Err(e);
                        },
                    }
                },
            }
        }
        Ok(AnsiDocument { chars: performer.output })
    }
}

/// The SGR sequence with the parameter text `params`.
pub open spec fn sgr(params: Seq<char>) -> Seq<char> {
    seq!['\u{1b}', '['] + params + seq!['m']
}

/// What is written before the character of `cell` when the colors last
/// written are `last_fg` and `last_bg`: a reset where the cell is in the
/// default colors and the last colors are not; else one SGR sequence for the
/// colors that differ from the last, the foreground first; else nothing.
pub open spec fn color_change(last_fg: AnsiColor, last_bg: AnsiColor, cell: AnsiChar) -> Seq<char> {
    let fg_differs = !same_color(last_fg, cell.fg);
    let bg_differs = !same_color(last_bg, cell.bg);
    if same_color(cell.bg, spec_default_bg()) && same_color(cell.fg, spec_default_fg()) && (
    bg_differs || fg_differs) {
        sgr(seq!['0'])
    } else if bg_differs && fg_differs {
        sgr(cell.fg.spec_fg_code() + seq![';'] + cell.bg.spec_bg_code())
    } else if fg_differs {
        sgr(cell.fg.spec_fg_code())
    } else if bg_differs {
        sgr(cell.bg.spec_bg_code())
    } else {
        Seq::empty()
    }
}

/// The text of `cells` when the colors last written are `last_fg` and
/// `last_bg`: each cell's color change and character, in order.
pub open spec fn rendered_from(last_fg: AnsiColor, last_bg: AnsiColor, cells: Seq<AnsiChar>) -> Seq<
    char,
>
    decreases cells.len(),
{
    if cells.len() == 0 {
        Seq::empty()
    } else {
        color_change(last_fg, last_bg, cells[0]).push(cells[0].c) + rendered_from(
            cells[0].fg,
            cells[0].bg,
            cells.drop_first(),
        )
    }
}

/// The text of a document: its cells written from the default colors on.
pub open spec fn rendered(cells: Seq<AnsiChar>) -> Seq<char> {
    rendered_from(spec_default_fg(), spec_default_bg(), cells)
}

/// Appends the SGR sequence with the parameter text `params` to `out`.
fn push_sgr(out: &mut String, params: &str)
    ensures
        final(out)@ == old(out)@ + sgr(params@),
{
    out.push('\x1b');
    out.push('[');
    out.append(params);
    out.push('m');
    assert(out@ =~= old(out)@ + sgr(params@));
}

impl AnsiDocument {
    /// Writes the document as ANSI text, with an SGR sequence only where a
    /// cell's colors differ from those of the cell before it.
    pub fn to_string(&self) -> (text: String)
        ensures
            text@ == rendered(self@),
    {
        let mut output = String::new();
        let mut current_bg = default_bg();
        let mut current_fg = default_fg();
        let n = self.chars.len();
        let mut i: usize = 0;
        assert(self.chars@.skip(0) =~= self@);
        while i < n
            invariant
                i <= n,
                n == self.chars@.len(),
                output@ + rendered_from(current_fg, current_bg, self.chars@.skip(i as int))
                    == rendered(self@),
            decreases n - i,
        {
            let c = self.chars[i];
            let ghost rest = self.chars@.skip(i as int);
            let ghost before = output@;
            assert(rest[0] == c);
            assert(rest.drop_first() =~= self.chars@.skip(i + 1));
            // Change the color if needed.
            if (c.bg == default_bg() && c.fg == default_fg()) && (current_bg != c.bg || current_fg
                != c.fg) {
                proof {
                    reveal_strlit("0");
                }
                push_sgr(&mut output, "0");
                assert("0"@ =~= seq!['0']);
            } else if current_bg != c.bg && current_fg != c.fg {
                proof {
                    reveal_strlit(";");
                }
                let mut params = c.fg.fg_code();
                params.append(";");
                params.append(c.bg.bg_code().as_str());
                assert(params@ =~= c.fg.spec_fg_code() + seq![';'] + c.bg.spec_bg_code());
                push_sgr(&mut output, params.as_str());
            } else if current_fg != c.fg {
                push_sgr(&mut output, c.fg.fg_code().as_str());
            } else if current_bg != c.bg {
                push_sgr(&mut output, c.bg.bg_code().as_str());
            }
            assert(output@ == before + color_change(current_fg, current_bg, c));
            // Write the next character.
            output.push(c.c);
            assert(output@ + rendered_from(c.fg, c.bg, rest.drop_first()) =~= before
                + rendered_from(current_fg, current_bg, rest));
            current_bg = c.bg;
            current_fg = c.fg;
            i += 1;
        }
        assert(self.chars@.skip(n as int) =~= Seq::<AnsiChar>::empty());
        assert(output@ =~= rendered(self@));
        output
    }
}

} // verus!

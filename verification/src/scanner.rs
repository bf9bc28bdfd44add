//! The state machine that finds escape sequences in a text.
//!
//! The machine reads one character at a time. It knows the 7-bit control
//! functions only: a character outside ASCII is text on the ground and is
//! passed over everywhere else. For each character it says where the scan
//! stands afterwards and what is to be done with the character.

use vstd::prelude::*;

verus! {

/// The most parameters and subparameters that one control sequence can hold.
/// What follows them in the sequence is passed over.
pub const MAX_PARAMS: usize = 32;

/// Where the scan stands.
#[derive(Debug, Clone, Copy, PartialEq, Eq, Structural)]
pub enum ScanState {
    /// In plain text.
    Ground,
    /// Just after ESC.
    Escape,
    /// In an escape sequence, after an intermediate character.
    EscapeIntermediate,
    /// Just after `ESC [`.
    CsiEntry,
    /// In the parameters of a control sequence.
    CsiParam,
    /// In a control sequence, after an intermediate character.
    CsiIntermediate,
    /// In a control sequence that is not well formed, up to its final
    /// character.
    CsiIgnore,
    /// In an operating system command, which ends at BEL, CAN, SUB or ESC.
    OscString,
    /// In a device control, privacy message, application program command or
    /// start-of-string text, which ends at CAN, SUB or ESC.
    ControlString,
}

/// What is to be done with a character.
#[derive(Debug, Clone, Copy, PartialEq, Eq, Structural)]
pub enum Action {
    /// Nothing.
    Nop,
    /// The character is text.
    Print,
    /// The character is a control character to carry out.
    Execute,
    /// The character belongs to the parameters of a control sequence.
    Param,
    /// The character ends a control sequence.
    CsiDispatch,
}

/// `b` is a control character that is carried out where it stands: all below
/// the space but CAN, SUB and ESC.
pub open spec fn is_plain_control(b: u32) -> bool {
    b <= 0x17 || b == 0x19 || (0x1c <= b <= 0x1f)
}

/// `b` is an intermediate character of an escape or control sequence.
pub open spec fn is_intermediate(b: u32) -> bool {
    0x20 <= b <= 0x2f
}

/// `b` ends a control sequence.
pub open spec fn is_csi_final(b: u32) -> bool {
    0x40 <= b <= 0x7e
}

/// The state after `c` is read in `state`, and what is to be done with `c`.
pub open spec fn transition(state: ScanState, c: char) -> (ScanState, Action) {
    let b = c as u32;
    if b == 0x18 || b == 0x1a {
        (ScanState::Ground, Action::Execute)
    } else if b == 0x1b {
        (ScanState::Escape, Action::Nop)
    } else if b >= 0x80 {
        (
            state,
            if state == ScanState::Ground {
                Action::Print
            } else {
                Action::Nop
            },
        )
    } else {
        match state {
            ScanState::Ground => (
                state,
                if is_plain_control(b) {
                    Action::Execute
                } else {
                    Action::Print
                },
            ),
            ScanState::Escape => {
                if is_plain_control(b) {
                    (state, Action::Execute)
                } else if b == 0x7f {
                    (state, Action::Nop)
                } else if is_intermediate(b) {
                    (ScanState::EscapeIntermediate, Action::Nop)
                } else if b == 0x5b {
                    (ScanState::CsiEntry, Action::Nop)
                } else if b == 0x5d {
                    (ScanState::OscString, Action::Nop)
                } else if b == 0x50 || b == 0x58 || b == 0x5e || b == 0x5f {
                    (ScanState::ControlString, Action::Nop)
                } else {
                    (ScanState::Ground, Action::Nop)
                }
            },
            ScanState::EscapeIntermediate => {
                if is_plain_control(b) {
                    (state, Action::Execute)
                } else if is_intermediate(b) || b == 0x7f {
                    (state, Action::Nop)
                } else {
                    (ScanState::Ground, Action::Nop)
                }
            },
            ScanState::CsiEntry => {
                if is_plain_control(b) {
                    (state, Action::Execute)
                } else if b == 0x7f {
                    (state, Action::Nop)
                } else if is_intermediate(b) {
                    (ScanState::CsiIntermediate, Action::Nop)
                } else if b <= 0x3b {
                    (ScanState::CsiParam, Action::Param)
                } else if b <= 0x3f {
                    (ScanState::CsiParam, Action::Nop)
                } else {
                    (ScanState::Ground, Action::CsiDispatch)
                }
            },
            ScanState::CsiParam => {
                if is_plain_control(b) {
                    (state, Action::Execute)
                } else if b == 0x7f {
                    (state, Action::Nop)
                } else if is_intermediate(b) {
                    (ScanState::CsiIntermediate, Action::Nop)
                } else if b <= 0x3b {
                    (state, Action::Param)
                } else if b <= 0x3f {
                    (ScanState::CsiIgnore, Action::Nop)
                } else {
                    (ScanState::Ground, Action::CsiDispatch)
                }
            },
            ScanState::CsiIntermediate => {
                if is_plain_control(b) {
                    (state, Action::Execute)
                } else if is_intermediate(b) || b == 0x7f {
                    (state, Action::Nop)
                } else if b <= 0x3f {
                    (ScanState::CsiIgnore, Action::Nop)
                } else {
                    (ScanState::Ground, Action::CsiDispatch)
                }
            },
            ScanState::CsiIgnore => {
                if is_plain_control(b) {
                    (state, Action::Execute)
                } else if is_csi_final(b) {
                    (ScanState::Ground, Action::Nop)
                } else {
                    (state, Action::Nop)
                }
            },
            ScanState::OscString => {
                if b == 0x07 {
                    (ScanState::Ground, Action::Nop)
                } else {
                    (state, Action::Nop)
                }
            },
            ScanState::ControlString => (state, Action::Nop),
        }
    }
}

/// Reads `c` in `state`: the state afterwards, and what is to be done with
/// `c`.
pub fn next_state(state: ScanState, c: char) -> (next: (ScanState, Action))
    ensures
        next == transition(state, c),
{
    let b: u32 = c as u32;
    if b == 0x18 || b == 0x1a {
        return (ScanState::Ground, Action::Execute);
    }
    if b == 0x1b {
        return (ScanState::Escape, Action::Nop);
    }
    if b >= 0x80 {
        return match state {
            ScanState::Ground => (state, Action::Print),
            _ => (state, Action::Nop),
        };
    }
    let control = b < 0x20;
    match state {
        ScanState::Ground => if control {
            (state, Action::Execute)
        } else {
            (state, Action::Print)
        },
        ScanState::Escape => match b {
            0x00..=0x1f => (state, Action::Execute),
            0x20..=0x2f => (ScanState::EscapeIntermediate, Action::Nop),
            0x5b => (ScanState::CsiEntry, Action::Nop),
            0x5d => (ScanState::OscString, Action::Nop),
            0x50 | 0x58 | 0x5e | 0x5f => (ScanState::ControlString, Action::Nop),
            0x7f => (state, Action::Nop),
            _ => (ScanState::Ground, Action::Nop),
        },
        ScanState::EscapeIntermediate => match b {
            0x00..=0x1f => (state, Action::Execute),
            0x20..=0x2f | 0x7f => (state, Action::Nop),
            _ => (ScanState::Ground, Action::Nop),
        },
        ScanState::CsiEntry => match b {
            0x00..=0x1f => (state, Action::Execute),
            0x20..=0x2f => (ScanState::CsiIntermediate, Action::Nop),
            0x30..=0x3b => (ScanState::CsiParam, Action::Param),
            0x3c..=0x3f => (ScanState::CsiParam, Action::Nop),
            0x7f => (state, Action::Nop),
            _ => (ScanState::Ground, Action::CsiDispatch),
        },
        ScanState::CsiParam => match b {
            0x00..=0x1f => (state, Action::Execute),
            0x20..=0x2f => (ScanState::CsiIntermediate, Action::Nop),
            0x30..=0x3b => (state, Action::Param),
            0x3c..=0x3f => (ScanState::CsiIgnore, Action::Nop),
            0x7f => (state, Action::Nop),
            _ => (ScanState::Ground, Action::CsiDispatch),
        },
        ScanState::CsiIntermediate => match b {
            0x00..=0x1f => (state, Action::Execute),
            0x20..=0x2f | 0x7f => (state, Action::Nop),
            0x30..=0x3f => (ScanState::CsiIgnore, Action::Nop),
            _ => (ScanState::Ground, Action::CsiDispatch),
        },
        ScanState::CsiIgnore => match b {
            0x00..=0x1f => (state, Action::Execute),
            0x40..=0x7e => (ScanState::Ground, Action::Nop),
            _ => (state, Action::Nop),
        },
        ScanState::OscString => if b == 0x07 {
            (ScanState::Ground, Action::Nop)
        } else {
            (state, Action::Nop)
        },
        ScanState::ControlString => (state, Action::Nop),
    }
}

/// What a [`ParamCollector`] holds, as contracts see it.
pub struct Collected {
    /// The parameters that are complete, each without its subparameters.
    pub heads: Seq<u16>,
    /// The number that is being read.
    pub current: u16,
    /// How many parameters and subparameters are complete.
    pub count: nat,
    /// Whether the number that is being read is a subparameter.
    pub in_subparam: bool,
}

impl Collected {
    /// Nothing read yet.
    pub open spec fn cleared() -> Collected {
        Collected { heads: Seq::empty(), current: 0, count: 0, in_subparam: false }
    }

    /// The list with the number that is being read brought to an end. A
    /// subparameter is dropped; so is any number once the list is full.
    pub open spec fn closed_heads(self) -> Seq<u16> {
        if self.count >= MAX_PARAMS || self.in_subparam {
            self.heads
        } else {
            self.heads.push(self.current)
        }
    }

    /// The list after the parameter character `c` is read: a digit goes into
    /// the number that is being read, which stays at 65535 once it has got
    /// there; `;` ends the number and begins a parameter, `:` ends it and
    /// begins a subparameter. A full list takes nothing more.
    pub open spec fn collected(self, c: char) -> Collected {
        if self.count >= MAX_PARAMS {
            self
        } else if c == ';' || c == ':' {
            Collected {
                heads: self.closed_heads(),
                current: 0,
                count: self.count + 1,
                in_subparam: c == ':',
            }
        } else {
            let grown = self.current * 10 + (c as u32 - 0x30);
            Collected {
                current: if grown > 0xffff {
                    0xffffu16
                } else {
                    grown as u16
                },
                ..self
            }
        }
    }
}

/// Collects the numeric parameters of a control sequence, up to
/// [`MAX_PARAMS`] of them, subparameters counted.
pub struct ParamCollector {
    heads: Vec<u16>,
    current: u16,
    count: usize,
    in_subparam: bool,
}

impl View for ParamCollector {
    type V = Collected;

    closed spec fn view(&self) -> Collected {
        Collected {
            heads: self.heads@,
            current: self.current,
            count: self.count as nat,
            in_subparam: self.in_subparam,
        }
    }
}

impl ParamCollector {
    /// The collector never holds more than [`MAX_PARAMS`] numbers.
    pub closed spec fn wf(self) -> bool {
        self.heads@.len() <= self.count <= MAX_PARAMS
    }

    /// A collector that has read nothing.
    pub fn new() -> (collector: Self)
        ensures
            collector@ == Collected::cleared(),
            collector.wf(),
    {
        ParamCollector { heads: Vec::new(), current: 0, count: 0, in_subparam: false }
    }

    /// Forgets what was read.
    pub fn clear(&mut self)
        ensures
            final(self)@ == Collected::cleared(),
            final(self).wf(),
    {
        self.heads.clear();
        self.current = 0;
        self.count = 0;
        self.in_subparam = false;
    }

    /// Reads one parameter character: a digit, `:` or `;`.
    pub fn collect(&mut self, c: char)
        requires
            old(self).wf(),
            0x30 <= c as u32 <= 0x3b,
        ensures
            final(self)@ == old(self)@.collected(c),
            final(self).wf(),
    {
        if self.count >= MAX_PARAMS {
            return ;
        }
        if c == ';' || c == ':' {
            if !self.in_subparam {
                self.heads.push(self.current);
            }
            self.current = 0;
            self.count += 1;
            self.in_subparam = c == ':';
        } else {
            let grown: u32 = (self.current as u32) * 10 + (c as u32 - 0x30);
            self.current = if grown > 0xffff {
                0xffff
            } else {
                grown as u16
            };
        }
    }

    /// Ends the list: hands out the parameters, the one that was being read
    /// included, and forgets them.
    pub fn take(&mut self) -> (heads: Vec<u16>)
        requires
            old(self).wf(),
        ensures
            heads@ == old(self)@.closed_heads(),
            final(self)@ == Collected::cleared(),
            final(self).wf(),
    {
        if self.count < MAX_PARAMS && !self.in_subparam {
            self.heads.push(self.current);
        }
        let mut heads: Vec<u16> = Vec::new();
        core::mem::swap(&mut heads, &mut self.heads);
        self.current = 0;
        self.count = 0;
        self.in_subparam = false;
        heads
    }
}

} // verus!

//! The three ANSI color representations, the conversions between them and
//! their SGR parameter text.

use vstd::prelude::*;
use vstd::std_specs::cmp::PartialEqSpecImpl;
use vstd::string::*;

use crate::decimal::{decimal, push_decimal};

verus! {

/// Distance between a 16-color foreground code and the background code of the
/// same hue.
pub const ANSI_16_FG_TO_BG: u8 = 10;

/// SGR code of the default foreground color.
pub const DEFAULT_FG_CODE: u8 = 37;

/// SGR code of the default background color.
pub const DEFAULT_BG_CODE: u8 = 40;

/// The default foreground color, as contracts name it.
pub open spec fn spec_default_fg() -> AnsiColor {
    AnsiColor::Ansi16(DEFAULT_FG_CODE)
}

/// The default background color, as contracts name it.
pub open spec fn spec_default_bg() -> AnsiColor {
    AnsiColor::Ansi16(DEFAULT_BG_CODE)
}

/// The default foreground color.
#[verifier::when_used_as_spec(spec_default_fg)]
pub fn default_fg() -> (c: AnsiColor)
    ensures
        c == spec_default_fg(),
{
    AnsiColor::Ansi16(DEFAULT_FG_CODE)
}

/// The default background color.
#[verifier::when_used_as_spec(spec_default_bg)]
pub fn default_bg() -> (c: AnsiColor)
    ensures
        c == spec_default_bg(),
{
    AnsiColor::Ansi16(DEFAULT_BG_CODE)
}

/// Represents an ANSI color.
#[derive(Debug, Clone, Copy)]
pub enum AnsiColor {
    /// One of the 16 palette colors, held as its SGR code: 30-37 and 90-97
    /// select a foreground, 40-47 and 100-107 the background of the same hue.
    Ansi16(u8),
    /// An index into the 256-color palette.
    Ansi256(u8),
    /// A 24-bit color: red, green, blue.
    Rgb(u8, u8, u8),
}

/// `c` is an SGR code that selects one of the 16 colors as foreground.
pub open spec fn is_fg_code(c: u8) -> bool {
    30 <= c <= 37 || 90 <= c <= 97
}

/// `c` is an SGR code that selects one of the 16 colors as background.
pub open spec fn is_bg_code(c: u8) -> bool {
    40 <= c <= 47 || 100 <= c <= 107
}

/// `c` is one of the 32 SGR codes of the 16-color palette.
pub open spec fn is_ansi_16_code(c: u8) -> bool {
    is_fg_code(c) || is_bg_code(c)
}

/// The foreground code of the hue that `c` selects; 0 where `c` is no
/// 16-color code.
pub open spec fn fg_form(c: u8) -> u8 {
    if is_fg_code(c) {
        c
    } else if is_bg_code(c) {
        (c - ANSI_16_FG_TO_BG) as u8
    } else {
        0
    }
}

/// The background code of the hue that `c` selects; 0 where `c` is no
/// 16-color code.
pub open spec fn bg_form(c: u8) -> u8 {
    if is_fg_code(c) {
        (c + ANSI_16_FG_TO_BG) as u8
    } else if is_bg_code(c) {
        c
    } else {
        0
    }
}

/// Brings a 16-color code to the foreground code of its hue.
pub fn ansi_16_to_fg(c: u8) -> (code: u8)
    ensures
        code == fg_form(c),
{
    if (30 <= c && c <= 37) || (90 <= c && c <= 97) {
        c
    } else if (40 <= c && c <= 47) || (100 <= c && c <= 107) {
        c - ANSI_16_FG_TO_BG
    } else {
        0
    }
}

/// Brings a 16-color code to the background code of its hue.
pub fn ansi_16_to_bg(c: u8) -> (code: u8)
    ensures
        code == bg_form(c),
{
    if (30 <= c && c <= 37) || (90 <= c && c <= 97) {
        c + ANSI_16_FG_TO_BG
    } else if (40 <= c && c <= 47) || (100 <= c && c <= 107) {
        c
    } else {
        0
    }
}

impl PartialEq for AnsiColor {
    /// Two 16-color values are equal when they select the same hue, be it as
    /// foreground or as background. Values of different representations are
    /// never equal.
    fn eq(&self, other: &Self) -> (r: bool) {
        match (self, other) {
            (AnsiColor::Ansi16(a), AnsiColor::Ansi16(b)) => ansi_16_to_fg(*a) == ansi_16_to_fg(*b),
            (AnsiColor::Ansi256(a), AnsiColor::Ansi256(b)) => *a == *b,
            (AnsiColor::Rgb(ar, ag, ab), AnsiColor::Rgb(br, bg, bb)) => {
                *ar == *br && *ag == *bg && *ab == *bb
            },
            _ => false,
        }
    }
}

impl PartialEqSpecImpl for AnsiColor {
    open spec fn obeys_eq_spec() -> bool {
        true
    }

    open spec fn eq_spec(&self, other: &Self) -> bool {
        same_color(*self, *other)
    }
}

/// The two colors are equal in the sense of `==`: they are of one
/// representation and select the same color, a 16-color foreground code and
/// the background code of its hue being one color.
pub open spec fn same_color(a: AnsiColor, b: AnsiColor) -> bool {
    match (a, b) {
        (AnsiColor::Ansi16(a), AnsiColor::Ansi16(b)) => fg_form(a) == fg_form(b),
        (AnsiColor::Ansi256(a), AnsiColor::Ansi256(b)) => a == b,
        (AnsiColor::Rgb(ar, ag, ab), AnsiColor::Rgb(br, bg, bb)) => {
            ar == br && ag == bg && ab == bb
        },
        _ => false,
    }
}

/// The level from 0 to 5 that a channel has in the 6x6x6 color cube of the
/// 256-color palette: `5 * c / 255` rounded to the nearest integer, which is
/// the whole part of `(2 * 5 * c + 255) / (2 * 255)`.
pub open spec fn cube_level(c: u8) -> int {
    (10 * c + 255) / 510
}

/// Whether a channel counts as present in a 16-color hue, 1 or 0: `c / 255`
/// rounded to the nearest integer, which is the whole part of
/// `(2 * c + 255) / (2 * 255)`.
pub open spec fn channel_bit(c: u8) -> int {
    (2 * c + 255) / 510
}

/// The value of a color in steps of 50 percent, from 0 to 2, where `max` is
/// the largest of its channels: the value is `100 * max / 255` percent, and
/// `2 * max / 255` rounded to the nearest integer is the whole part of
/// `(2 * 2 * max + 255) / (2 * 255)`.
pub open spec fn value_level(max: u8) -> int {
    (4 * max + 255) / 510
}

/// The step of the 24-step grey ramp that a grey with the channel `r` falls
/// on, for `r` from 8 to 248: `24 * (r - 8) / 247` rounded to the nearest
/// integer, which is the whole part of `(2 * 24 * (r - 8) + 247) / (2 * 247)`.
pub open spec fn grey_step(r: u8) -> int {
    (48 * (r - 8) + 247) / 494
}

/// The largest of three channels.
pub open spec fn max3(a: u8, b: u8, c: u8) -> u8 {
    if a >= b && a >= c {
        a
    } else if b >= c {
        b
    } else {
        c
    }
}

/// The smallest of three channels.
pub open spec fn min3(a: u8, b: u8, c: u8) -> u8 {
    if a <= b && a <= c {
        a
    } else if b <= c {
        b
    } else {
        c
    }
}

/// An exact fraction `num / den`.
#[derive(Debug, Clone, Copy, PartialEq, Eq)]
pub struct Ratio {
    pub num: u32,
    pub den: u32,
}

/// A color in hue, saturation and value coordinates, each held exactly.
#[derive(Debug, Clone, Copy, PartialEq, Eq)]
pub struct Hsv {
    /// The hue in degrees, from 0 up to 360.
    pub hue: Ratio,
    /// The saturation in percent.
    pub saturation: Ratio,
    /// The value in percent.
    pub value: Ratio,
}

/// The hue of a color in degrees. A grey has hue 0. Otherwise the hue is
/// measured from the strongest channel (red at 0, green at 120, blue at 240),
/// shifted towards the stronger of the other two by up to 60 degrees.
pub open spec fn hue_of(r: u8, g: u8, b: u8) -> Ratio {
    let v = max3(r, g, b);
    let d = v - min3(r, g, b);
    if d == 0 {
        Ratio { num: 0, den: 1 }
    } else if r == v {
        if g >= b {
            Ratio { num: (60 * (g - b)) as u32, den: d as u32 }
        } else {
            Ratio { num: (360 * d - 60 * (b - g)) as u32, den: d as u32 }
        }
    } else if g == v {
        Ratio { num: (120 * d + 60 * b - 60 * r) as u32, den: d as u32 }
    } else {
        Ratio { num: (240 * d + 60 * r - 60 * g) as u32, den: d as u32 }
    }
}

/// The color `(r, g, b)` in hue, saturation and value coordinates.
pub open spec fn spec_rgb_to_hsv(r: u8, g: u8, b: u8) -> Hsv {
    let v = max3(r, g, b);
    let d = v - min3(r, g, b);
    Hsv {
        hue: hue_of(r, g, b),
        saturation: if d == 0 {
            Ratio { num: 0, den: 1 }
        } else {
            Ratio { num: (100 * d) as u32, den: v as u32 }
        },
        value: Ratio { num: (100 * v) as u32, den: 255 },
    }
}

/// Converts an RGB color to hue (degrees), saturation (percent) and value
/// (percent). The three results are exact fractions with denominators above 0.
pub fn rgb_to_hsv(r: u8, g: u8, b: u8) -> (hsv: Hsv)
    ensures
        hsv == spec_rgb_to_hsv(r, g, b),
        hsv.hue.den > 0,
        hsv.saturation.den > 0,
        hsv.value.den > 0,
        hsv.hue.num < 360 * hsv.hue.den,
        hsv.saturation.num <= 100 * hsv.saturation.den,
        hsv.value.num <= 100 * hsv.value.den,
{
    let v: u8 = if r >= b && r >= g {
        r
    } else if g >= b {
        g
    } else {
        b
    };
    let low: u8 = if r <= b && r <= g {
        r
    } else if g <= b {
        g
    } else {
        b
    };
    let d: u32 = (v - low) as u32;
    let (r32, g32, b32): (u32, u32, u32) = (r as u32, g as u32, b as u32);
    let hue = if d == 0 {
        Ratio { num: 0, den: 1 }
    } else if r == v {
        if g >= b {
            Ratio { num: 60 * (g32 - b32), den: d }
        } else {
            Ratio { num: 360 * d - 60 * (b32 - g32), den: d }
        }
    } else if g == v {
        Ratio { num: 120 * d + 60 * b32 - 60 * r32, den: d }
    } else {
        Ratio { num: 240 * d + 60 * r32 - 60 * g32, den: d }
    };
    let saturation = if d == 0 {
        Ratio { num: 0, den: 1 }
    } else {
        Ratio { num: 100 * d, den: v as u32 }
    };
    Hsv { hue, saturation, value: Ratio { num: 100 * (v as u32), den: 255 } }
}

/// The 16-color code nearest to `(r, g, b)`: black where the value, in steps
/// of 50 percent, rounds to 0; else the hue made of the channels that are
/// present, at low intensity where the value rounds to 1 step and at high
/// intensity where it rounds to 2.
pub open spec fn spec_rgb_to_ansi_16(r: u8, g: u8, b: u8) -> u8 {
    let level = value_level(max3(r, g, b));
    let hue = 4 * channel_bit(b) + 2 * channel_bit(g) + channel_bit(r);
    if level == 0 {
        30
    } else if level == 2 {
        (90 + hue) as u8
    } else {
        (30 + hue) as u8
    }
}

/// Convert an RGB color to the ANSI 16 color palette.
///
/// This returns a foreground color code which can be used in an SGR block.
pub fn rgb_to_ansi_16(r: u8, g: u8, b: u8) -> (code: u8)
    ensures
        code == spec_rgb_to_ansi_16(r, g, b),
        is_fg_code(code),
{
    let value = rgb_to_hsv(r, g, b).value;
    assert(value.den == 255 && value.num == 100 * max3(r, g, b));
    let level: u32 = (2 * value.num + 50 * value.den) / (100 * value.den);
    assert(level == value_level(max3(r, g, b))) by {
        let max = max3(r, g, b);
        assert(100 * value.den == 25500);
        assert(level == (200 * max + 12750) / 25500);
        let q = (4 * max + 255) / 510;
        assert(25500 * q <= 200 * max + 12750 < 25500 * q + 25500);
    }
    assert(channel_bit(r) == (if r >= 128 { 1int } else { 0int }));
    assert(channel_bit(g) == (if g >= 128 { 1int } else { 0int }));
    assert(channel_bit(b) == (if b >= 128 { 1int } else { 0int }));
    if level == 0 {
        return 30;
    }
    let mut ansi: u8 = 30;
    if b >= 128 {
        ansi += 4;
    }
    if g >= 128 {
        ansi += 2;
    }
    if r >= 128 {
        ansi += 1;
    }
    if level == 2 {
        ansi += 60;
    }
    ansi
}

/// The index in the 256-color palette nearest to `(r, g, b)`. A color whose
/// three channels are at the same level of the color cube is a grey: index 16
/// for the darkest, 231 for the lightest, and else a step of the 24-step grey
/// ramp from 232. Every other color is the entry of the color cube at the
/// levels of its channels.
pub open spec fn spec_rgb_to_ansi_256(r: u8, g: u8, b: u8) -> u8 {
    if cube_level(r) == cube_level(g) && cube_level(g) == cube_level(b) {
        if r < 8 {
            16
        } else if r > 248 {
            231
        } else {
            (232 + grey_step(r)) as u8
        }
    } else {
        (16 + 36 * cube_level(r) + 6 * cube_level(g) + cube_level(b)) as u8
    }
}

/// Convert an RGB color to the ANSI 256 color palette.
///
/// This returns an index which can be used in an SGR block after `38;5;`.
pub fn rgb_to_ansi_256(r: u8, g: u8, b: u8) -> (index: u8)
    ensures
        index == spec_rgb_to_ansi_256(r, g, b),
        index >= 16,
{
    let lr: u32 = (10 * (r as u32) + 255) / 510;
    let lg: u32 = (10 * (g as u32) + 255) / 510;
    let lb: u32 = (10 * (b as u32) + 255) / 510;
    if lr == lg && lg == lb {
        if r < 8 {
            return 16;
        }
        if r > 248 {
            return 231;
        }
        let step: u32 = (48 * ((r - 8) as u32) + 247) / 494;
        (232 + step) as u8
    } else {
        (16 + 36 * lr + 6 * lg + lb) as u8
    }
}

/// The RGB value of each of the 16 colors, by its foreground code; black for
/// any other number.
pub open spec fn palette_rgb(fg: u8) -> (u8, u8, u8) {
    match fg {
        30 => (0, 0, 0),
        31 => (128, 0, 0),
        32 => (0, 128, 0),
        33 => (128, 128, 0),
        34 => (0, 0, 128),
        35 => (128, 0, 128),
        36 => (0, 128, 128),
        37 => (192, 192, 192),
        90 => (0, 0, 0),
        91 => (255, 0, 0),
        92 => (0, 255, 0),
        93 => (255, 255, 0),
        94 => (0, 0, 255),
        95 => (255, 0, 255),
        96 => (0, 255, 255),
        97 => (255, 255, 255),
        _ => (0, 0, 0),
    }
}

/// The RGB value of a 16-color code, foreground or background.
pub fn ansi_16_to_rgb(c: u8) -> (rgb: (u8, u8, u8))
    ensures
        rgb == palette_rgb(fg_form(c)),
{
    match c {
        30 | 40 => (0, 0, 0),
        31 | 41 => (128, 0, 0),
        32 | 42 => (0, 128, 0),
        33 | 43 => (128, 128, 0),
        34 | 44 => (0, 0, 128),
        35 | 45 => (128, 0, 128),
        36 | 46 => (0, 128, 128),
        37 | 47 => (192, 192, 192),
        90 | 100 => (0, 0, 0),
        91 | 101 => (255, 0, 0),
        92 | 102 => (0, 255, 0),
        93 | 103 => (255, 255, 0),
        94 | 104 => (0, 0, 255),
        95 | 105 => (255, 0, 255),
        96 | 106 => (0, 255, 255),
        97 | 107 => (255, 255, 255),
        _ => (0, 0, 0),
    }
}

/// The RGB value of an index of the 256-color palette: the 16 colors for the
/// indices below 16, the grey ramp from 232 in steps of 10 from 8, and between
/// them the color cube with each level worth 51.
pub open spec fn spec_ansi_256_to_rgb(c: u8) -> (u8, u8, u8) {
    if c >= 232 {
        let grey = ((c - 232) * 10 + 8) as u8;
        (grey, grey, grey)
    } else if c < 8 {
        palette_rgb((c + 30) as u8)
    } else if c < 16 {
        palette_rgb((c + 82) as u8)
    } else {
        let cube = c - 16;
        ((51 * (cube / 36)) as u8, (51 * ((cube % 36) / 6)) as u8, (51 * (cube % 6)) as u8)
    }
}

/// Convert an index of the 256 color palette to RGB.
pub fn ansi_256_to_rgb(c: u8) -> (rgb: (u8, u8, u8))
    ensures
        rgb == spec_ansi_256_to_rgb(c),
{
    if c >= 232 {
        let grey: u8 = (c - 232) * 10 + 8;
        return (grey, grey, grey);
    }
    if c < 8 {
        return ansi_16_to_rgb(c + 30);
    }
    if c < 16 {
        return ansi_16_to_rgb(c + 92);
    }
    let cube: u8 = c - 16;
    let rem: u8 = cube % 36;
    (51 * (cube / 36), 51 * (rem / 6), 51 * (rem % 6))
}

/// The 16-color code nearest to an index of the 256-color palette: the code
/// of the RGB value that the index stands for.
pub open spec fn spec_ansi_256_to_ansi_16(c: u8) -> u8 {
    let (r, g, b) = spec_ansi_256_to_rgb(c);
    spec_rgb_to_ansi_16(r, g, b)
}

/// Convert a color from the ANSI 256 color palette to the 16 color palette.
///
/// This returns a foreground color code which can be used in an SGR block.
pub fn ansi_256_to_ansi_16(c: u8) -> (code: u8)
    ensures
        code == spec_ansi_256_to_ansi_16(c),
        is_fg_code(code),
{
    let (r, g, b) = ansi_256_to_rgb(c);
    rgb_to_ansi_16(r, g, b)
}

impl AnsiColor {
    /// A 16-color value is well formed when its code is one of the 32 SGR
    /// codes of the palette. The other two representations always are.
    pub open spec fn well_formed(self) -> bool {
        match self {
            AnsiColor::Ansi16(c) => is_ansi_16_code(c),
            _ => true,
        }
    }

    /// This color in the 16-color palette.
    pub open spec fn spec_to_ansi_16(self) -> AnsiColor {
        match self {
            AnsiColor::Ansi16(c) => AnsiColor::Ansi16(fg_form(c)),
            AnsiColor::Ansi256(c) => AnsiColor::Ansi16(spec_ansi_256_to_ansi_16(c)),
            AnsiColor::Rgb(r, g, b) => AnsiColor::Ansi16(spec_rgb_to_ansi_16(r, g, b)),
        }
    }

    /// This color in the 256-color palette.
    pub open spec fn spec_to_ansi_256(self) -> AnsiColor {
        match self {
            AnsiColor::Ansi16(c) => AnsiColor::Ansi256(
                if 30 <= c <= 37 {
                    (c - 30) as u8
                } else if 40 <= c <= 47 {
                    (c - 40) as u8
                } else if 90 <= c <= 97 {
                    (c - 82) as u8
                } else if 100 <= c <= 107 {
                    (c - 92) as u8
                } else {
                    0
                },
            ),
            AnsiColor::Ansi256(_) => self,
            AnsiColor::Rgb(r, g, b) => AnsiColor::Ansi256(spec_rgb_to_ansi_256(r, g, b)),
        }
    }

    /// This color as an RGB value.
    pub open spec fn spec_to_rgb(self) -> AnsiColor {
        match self {
            AnsiColor::Ansi16(c) => {
                let (r, g, b) = palette_rgb(fg_form(c));
                AnsiColor::Rgb(r, g, b)
            },
            AnsiColor::Ansi256(c) => {
                let (r, g, b) = spec_ansi_256_to_rgb(c);
                AnsiColor::Rgb(r, g, b)
            },
            AnsiColor::Rgb(_, _, _) => self,
        }
    }

    /// Convert this color to a 16-color ANSI color. The result holds a
    /// foreground code, or 0 where this is a 16-color value with a code that
    /// is none of the palette.
    #[verifier::when_used_as_spec(spec_to_ansi_16)]
    pub fn to_ansi_16(self) -> (color: AnsiColor)
        ensures
            color == self.spec_to_ansi_16(),
            color is Ansi16,
            self.well_formed() ==> is_fg_code(color->Ansi16_0),
    {
        match self {
            AnsiColor::Ansi16(c) => AnsiColor::Ansi16(ansi_16_to_fg(c)),
            AnsiColor::Ansi256(c) => AnsiColor::Ansi16(ansi_256_to_ansi_16(c)),
            AnsiColor::Rgb(r, g, b) => AnsiColor::Ansi16(rgb_to_ansi_16(r, g, b)),
        }
    }

    /// Convert this color to a 256-color ANSI color.
    #[verifier::when_used_as_spec(spec_to_ansi_256)]
    pub fn to_ansi_256(self) -> (color: AnsiColor)
        ensures
            color == self.spec_to_ansi_256(),
            color is Ansi256,
    {
        match self {
            AnsiColor::Ansi16(c) => {
                let c = if 30 <= c && c <= 37 {
                    c - 30
                } else if 40 <= c && c <= 47 {
                    c - 40
                } else if 90 <= c && c <= 97 {
                    c - 82
                } else if 100 <= c && c <= 107 {
                    c - 92
                } else {
                    0
                };
                AnsiColor::Ansi256(c)
            },
            AnsiColor::Ansi256(_) => self,
            AnsiColor::Rgb(r, g, b) => AnsiColor::Ansi256(rgb_to_ansi_256(r, g, b)),
        }
    }

    /// Convert this color to a RGB color.
    #[verifier::when_used_as_spec(spec_to_rgb)]
    pub fn to_rgb(self) -> (color: AnsiColor)
        ensures
            color == self.spec_to_rgb(),
            color is Rgb,
    {
        match self {
            AnsiColor::Ansi16(c) => {
                let (r, g, b) = ansi_16_to_rgb(c);
                AnsiColor::Rgb(r, g, b)
            },
            AnsiColor::Ansi256(c) => {
                let (r, g, b) = ansi_256_to_rgb(c);
                AnsiColor::Rgb(r, g, b)
            },
            AnsiColor::Rgb(_, _, _) => self,
        }
    }
    /// The SGR parameters that select this color as foreground.
    pub open spec fn spec_fg_code(self) -> Seq<char> {
        match self {
            AnsiColor::Ansi16(c) => decimal(fg_form(c) as nat),
            AnsiColor::Ansi256(c) => "38;5;"@ + decimal(c as nat),
            AnsiColor::Rgb(r, g, b) => "38;2;"@ + decimal(r as nat) + ";"@ + decimal(g as nat)
                + ";"@ + decimal(b as nat),
        }
    }

    /// The SGR parameters that select this color as background.
    pub open spec fn spec_bg_code(self) -> Seq<char> {
        match self {
            AnsiColor::Ansi16(c) => decimal(bg_form(c) as nat),
            AnsiColor::Ansi256(c) => "48;5;"@ + decimal(c as nat),
            AnsiColor::Rgb(r, g, b) => "48;2;"@ + decimal(r as nat) + ";"@ + decimal(g as nat)
                + ";"@ + decimal(b as nat),
        }
    }

    /// Return the a partial SGR to set the foreground to this color. The returned
    /// string will be missing the leading escape character and the trailing 'm'.
    pub fn fg_code(self) -> (code: String)
        ensures
            code@ == self.spec_fg_code(),
    {
        let mut code = String::new();
        match self {
            AnsiColor::Ansi16(c) => {
                push_decimal(&mut code, ansi_16_to_fg(c));
            },
            AnsiColor::Ansi256(c) => {
                code.append("38;5;");
                push_decimal(&mut code, c);
            },
            AnsiColor::Rgb(r, g, b) => {
                code.append("38;2;");
                push_decimal(&mut code, r);
                code.append(";");
                push_decimal(&mut code, g);
                code.append(";");
                push_decimal(&mut code, b);
            },
        }
        assert(code@ =~= self.spec_fg_code());
        code
    }

    /// Return the a partial SGR to set the background to this color. The returned
    /// string will be missing the leading escape character and the trailing 'm'.
    pub fn bg_code(self) -> (code: String)
        ensures
            code@ == self.spec_bg_code(),
    {
        let mut code = String::new();
        match self {
            AnsiColor::Ansi16(c) => {
                push_decimal(&mut code, ansi_16_to_bg(c));
            },
            AnsiColor::Ansi256(c) => {
                code.append("48;5;");
                push_decimal(&mut code, c);
            },
            AnsiColor::Rgb(r, g, b) => {
                code.append("48;2;");
                push_decimal(&mut code, r);
                code.append(";");
                push_decimal(&mut code, g);
                code.append(";");
                push_decimal(&mut code, b);
            },
        }
        assert(code@ =~= self.spec_bg_code());
        code
    }
}

/// `color` is one of the 16 colors of the palette, held under one of its two
/// SGR codes.
pub open spec fn is_palette_16(color: AnsiColor) -> bool {
    color is Ansi16 && color.well_formed()
}

/// A foreground code and the background code of its hue, which lies
/// [`ANSI_16_FG_TO_BG`] above it, are equal colors.
pub proof fn lemma_foreground_equals_background(c: u8)
    requires
        is_fg_code(c),
    ensures
        is_bg_code((c + ANSI_16_FG_TO_BG) as u8),
        same_color(AnsiColor::Ansi16(c), AnsiColor::Ansi16((c + ANSI_16_FG_TO_BG) as u8)),
        same_color(AnsiColor::Ansi16((c + ANSI_16_FG_TO_BG) as u8), AnsiColor::Ansi16(c)),
{
}

/// The nearest 16-color code of an RGB value is a foreground code.
pub proof fn lemma_rgb_to_ansi_16_is_fg_code(r: u8, g: u8, b: u8)
    ensures
        is_fg_code(spec_rgb_to_ansi_16(r, g, b)),
{
    assert(0 <= value_level(max3(r, g, b)) <= 2);
    assert(0 <= channel_bit(r) <= 1);
    assert(0 <= channel_bit(g) <= 1);
    assert(0 <= channel_bit(b) <= 1);
}

/// Conversion to 16 colors lands in the palette: the result of converting a
/// well-formed color holds a foreground code.
pub proof fn lemma_to_ansi_16_in_palette(color: AnsiColor)
    requires
        color.well_formed(),
    ensures
        is_palette_16(color.to_ansi_16()),
        is_fg_code(color.to_ansi_16()->Ansi16_0),
{
    match color {
        AnsiColor::Ansi16(c) => {},
        AnsiColor::Ansi256(c) => {
            let (r, g, b) = spec_ansi_256_to_rgb(c);
            lemma_rgb_to_ansi_16_is_fg_code(r, g, b);
        },
        AnsiColor::Rgb(r, g, b) => {
            lemma_rgb_to_ansi_16_is_fg_code(r, g, b);
        },
    }
}

/// Conversion to 16 colors changes nothing when it is done again, and a
/// 16-color value equals what it is converted to.
pub proof fn lemma_to_ansi_16_settles(color: AnsiColor)
    ensures
        color.to_ansi_16() is Ansi16,
        color.to_ansi_16().to_ansi_16() == color.to_ansi_16(),
        color is Ansi16 ==> same_color(color.to_ansi_16(), color),
{
    match color {
        AnsiColor::Ansi16(c) => {},
        AnsiColor::Ansi256(c) => {
            let (r, g, b) = spec_ansi_256_to_rgb(c);
            lemma_rgb_to_ansi_16_is_fg_code(r, g, b);
        },
        AnsiColor::Rgb(r, g, b) => {
            lemma_rgb_to_ansi_16_is_fg_code(r, g, b);
        },
    }
}

/// Equal colors are converted to one and the same 16-color value, and have
/// the same SGR parameters.
pub proof fn lemma_same_color_same_result(a: AnsiColor, b: AnsiColor)
    requires
        same_color(a, b),
    ensures
        a.to_ansi_16() == b.to_ansi_16(),
        a.spec_fg_code() == b.spec_fg_code(),
        a.spec_bg_code() == b.spec_bg_code(),
{
}

} // verus!

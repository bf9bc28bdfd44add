use ansi_converter::ansi_parser::{AnsiChar, AnsiDocument};
use ansi_converter::ansi_styles::AnsiColor;
use ansi_converter::downsample::downsample_cell;

fn code(color: AnsiColor) -> u8 {
    match color {
        AnsiColor::Ansi16(code) => code,
        other => panic!("not a 16-color value: {:?}", other),
    }
}

fn down(prior_bg: u8, fg: AnsiColor, bg: AnsiColor, c: char) -> (u8, u8, char) {
    let cell = downsample_cell(AnsiColor::Ansi16(prior_bg), AnsiChar { fg, bg, c });
    (code(cell.fg), code(cell.bg), cell.c)
}

#[test]
fn a_colored_space_becomes_a_block_on_the_background_before_it() {
    let white = AnsiColor::Ansi16(37);
    assert_eq!(down(40, white, AnsiColor::Ansi16(41), ' '), (31, 40, '█'));
    assert_eq!(down(44, white, AnsiColor::Rgb(255, 0, 0), ' '), (91, 44, '█'));
    assert_eq!(down(102, AnsiColor::Ansi16(31), AnsiColor::Ansi16(41), ' '), (31, 102, '█'));
}

#[test]
fn a_space_on_the_default_background_stays_a_space() {
    assert_eq!(down(44, AnsiColor::Ansi16(31), AnsiColor::Ansi16(40), ' '), (31, 30, ' '));
    assert_eq!(down(44, AnsiColor::Ansi16(31), AnsiColor::Ansi256(16), ' '), (31, 30, ' '));
}

#[test]
fn one_color_for_both_becomes_a_space_or_a_block() {
    assert_eq!(down(44, AnsiColor::Ansi16(31), AnsiColor::Ansi16(41), 'x'), (31, 31, '█'));
    assert_eq!(down(44, AnsiColor::Ansi16(30), AnsiColor::Ansi16(40), 'x'), (30, 30, ' '));
    assert_eq!(down(44, AnsiColor::Rgb(250, 0, 0), AnsiColor::Ansi256(9), '\n'), (91, 91, '█'));
    assert_eq!(down(44, AnsiColor::Ansi256(0), AnsiColor::Rgb(1, 1, 1), '▄'), (30, 30, ' '));
}

#[test]
fn a_block_drawn_in_black_is_drawn_inverted() {
    assert_eq!(down(44, AnsiColor::Ansi16(30), AnsiColor::Ansi16(46), '▄'), (36, 40, '▀'));
    assert_eq!(down(44, AnsiColor::Ansi256(0), AnsiColor::Ansi256(37), '▌'), (36, 40, '▐'));
    assert_eq!(down(44, AnsiColor::Ansi16(30), AnsiColor::Ansi16(42), '█'), (32, 40, ' '));
    assert_eq!(down(44, AnsiColor::Ansi16(30), AnsiColor::Ansi16(42), '▒'), (32, 40, '▒'));
}

#[test]
fn every_other_cell_is_converted_and_left_alone() {
    assert_eq!(down(44, AnsiColor::Ansi16(30), AnsiColor::Ansi16(46), 'x'), (30, 36, 'x'));
    assert_eq!(down(44, AnsiColor::Ansi16(31), AnsiColor::Ansi16(46), '▄'), (31, 36, '▄'));
    assert_eq!(down(44, AnsiColor::Rgb(0, 0, 255), AnsiColor::Ansi256(196), 'y'), (94, 91, 'y'));
    assert_eq!(down(44, AnsiColor::Ansi16(107), AnsiColor::Ansi16(40), '\n'), (97, 30, '\n'));
}

#[test]
fn a_document_is_brought_down_cell_by_cell() {
    let white = AnsiColor::Ansi16(37);
    let mut doc = AnsiDocument {
        chars: vec![
            AnsiChar { fg: white, bg: AnsiColor::Ansi16(44), c: 'a' },
            AnsiChar { fg: white, bg: AnsiColor::Ansi16(41), c: ' ' },
            AnsiChar { fg: white, bg: AnsiColor::Ansi16(42), c: ' ' },
            AnsiChar { fg: AnsiColor::Ansi16(30), bg: AnsiColor::Ansi16(43), c: '▄' },
            AnsiChar { fg: white, bg: AnsiColor::Ansi16(45), c: ' ' },
        ],
    };
    doc.downsample();
    let cells: Vec<_> = doc.chars.iter().map(|c| (code(c.fg), code(c.bg), c.c)).collect();
    assert_eq!(
        cells,
        vec![
            (37, 34, 'a'),
            (31, 34, '█'),
            (32, 34, '█'),
            (33, 40, '▀'),
            (35, 40, '█'),
        ]
    );
    let mut empty = AnsiDocument { chars: vec![] };
    empty.downsample();
    assert!(empty.chars.is_empty());
}

#[test]
fn bringing_down_twice_shows_the_same() {
    let colors = [
        AnsiColor::Ansi16(30),
        AnsiColor::Ansi16(40),
        AnsiColor::Ansi16(37),
        AnsiColor::Ansi16(101),
        AnsiColor::Ansi256(7),
        AnsiColor::Ansi256(37),
        AnsiColor::Rgb(10, 200, 30),
    ];
    let mut cells = vec![];
    for fg in colors {
        for bg in colors {
            for c in [' ', 'x', '▄', '█', '▒', '\n'] {
                cells.push(AnsiChar { fg, bg, c });
            }
        }
    }
    let mut doc = AnsiDocument { chars: cells };
    doc.downsample();
    let once: Vec<_> = doc.chars.iter().map(|c| (c.fg, c.bg, c.c)).collect();
    let text = doc.to_string();
    doc.downsample();
    let twice: Vec<_> = doc.chars.iter().map(|c| (c.fg, c.bg, c.c)).collect();
    assert_eq!(once, twice);
    assert_eq!(doc.to_string(), text);
}

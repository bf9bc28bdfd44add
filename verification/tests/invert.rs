use ansi_converter::invert::{can_invert_char, invert_char, FULL_BLOCK, MEDIUM_SHADE};

#[test]
fn should_invert_blocks() {
    assert_eq!(invert_char('█'), ' ');
    assert_eq!(invert_char(' '), '█');
    assert_eq!(invert_char('▌'), '▐');
    assert_eq!(invert_char('▐'), '▌');
}

#[test]
fn medium_shade_inverts_to_itself_and_is_invertible() {
    assert_eq!(MEDIUM_SHADE, '▒');
    assert_eq!(invert_char('▒'), '▒');
    assert!(can_invert_char('▒'));
}

#[test]
fn letters_are_not_invertible() {
    assert_eq!(invert_char('a'), 'a');
    assert!(!can_invert_char('a'));
    assert!(!can_invert_char('\n'));
    assert!(!can_invert_char('\u{1b}'));
}

#[test]
fn shades_halves_eighths_and_quadrants_are_inverted() {
    assert_eq!(FULL_BLOCK, '█');
    assert_eq!(invert_char('░'), '▓');
    assert_eq!(invert_char('▓'), '░');
    assert_eq!(invert_char('▄'), '▀');
    assert_eq!(invert_char('▀'), '▄');
    assert_eq!(invert_char('▁'), '\u{1FB86}');
    assert_eq!(invert_char('\u{1FB86}'), '▁');
    assert_eq!(invert_char('▇'), '▔');
    assert_eq!(invert_char('▏'), '\u{1FB8B}');
    assert_eq!(invert_char('▉'), '▕');
    assert_eq!(invert_char('▘'), '▟');
    assert_eq!(invert_char('▝'), '▙');
    assert_eq!(invert_char('▖'), '▜');
    assert_eq!(invert_char('▗'), '▛');
    assert_eq!(invert_char('▚'), '▞');
    assert_eq!(invert_char('▞'), '▚');
}

#[test]
fn inverting_twice_gives_every_character_back() {
    let mut changed = 0;
    for code in (0u32..0x3000).chain(0x1FB00..0x1FC00) {
        if let Some(c) = char::from_u32(code) {
            let once = invert_char(c);
            assert_eq!(invert_char(once), c);
            assert_eq!(can_invert_char(c), once != c || c == '▒');
            if once != c {
                changed += 1;
            }
        }
    }
    assert_eq!(changed, 42);
}

use ansi_converter::ansi_parser::MalformedEscape;
use ansi_converter::string_to_ansi_16;

#[test]
fn should_convert_rgb_to_ansi_16() {
    let input = "\x1b[38;2;0;255;255mHello, World!";
    let output = string_to_ansi_16(input).unwrap();
    assert_eq!(output, "\x1b[96mHello, World!");
}

#[test]
fn should_prefer_back_backgrounds() {
    let input = "\x1b[38;5;0;48;5;37m▄";
    let output = string_to_ansi_16(input).unwrap();
    assert_eq!(output, "\x1b[36m▀");
}

#[test]
fn should_convert_ansi_256_to_ansi_16() {
    let input = "\x1b[38;5;51mHello, World!";
    let output = string_to_ansi_16(input).unwrap();
    assert_eq!(output, "\x1b[96mHello, World!");

    let input = "\x1b[48;5;0m     \x1b[38;5;15;48;5;0m▄▄▄\x1b[48;5;15m    \x1b[38;5;15;48;5;0m▄▄\x1b[48;5;0m \x1b[38;5;37;48;5;0m▄\x1b[48;5;37m   \x1b[38;5;37;48;5;0m▄\x1b[48;5;0m  \x1b[m";
    let output = string_to_ansi_16(input).unwrap();
    assert_eq!(
        output,
        "     \x1b[97m▄▄▄████▄▄ \x1b[36m▄███▄  "
    );
}

#[test]
fn unsupported_color_mode_is_reported() {
    assert_eq!(
        string_to_ansi_16("\x1b[38;9m"),
        Err(MalformedEscape::UnknownColorMode(9))
    );
}

#[test]
fn malformed_text_gives_no_text_at_all() {
    assert_eq!(
        string_to_ansi_16("good \x1b[31mtext\x1b[38;5m"),
        Err(MalformedEscape::MissingParameter)
    );
    assert_eq!(
        string_to_ansi_16("good \x1b[31mtext\x1b[4m"),
        Err(MalformedEscape::UnhandledCode(4))
    );
}

#[test]
fn plain_text_is_left_as_it_is() {
    assert_eq!(string_to_ansi_16("").unwrap(), "");
    assert_eq!(string_to_ansi_16("Hello,\nWorld!").unwrap(), "Hello,\nWorld!");
}

#[test]
fn colors_are_written_only_where_they_change() {
    let output = string_to_ansi_16("\x1b[31ma\x1b[31mb\x1b[38;5;1mc\x1b[0md\x1b[0me").unwrap();
    assert_eq!(output, "\x1b[31mabc\x1b[0mde");
    let output = string_to_ansi_16("\x1b[31;44ma\x1b[32mb\x1b[45mc").unwrap();
    assert_eq!(output, "\x1b[31;44ma\x1b[32mb\x1b[45mc");
}

#[test]
fn colored_spaces_become_blocks() {
    let output = string_to_ansi_16("\x1b[41m  \x1b[42m  \x1b[0m.").unwrap();
    assert_eq!(output, "\x1b[31m██\x1b[32m██\x1b[0m.");
}

#[test]
fn sequences_other_than_sgr_are_dropped() {
    let output = string_to_ansi_16("\x1b[2J\x1b[1;1H\x1b[32mok\x1b]0;title\x07!").unwrap();
    assert_eq!(output, "\x1b[32mok!");
}

const SAMPLES: [&str; 8] = [
    "",
    "plain text\nwith two lines",
    "\x1b[38;2;0;255;255mHello, World!",
    "\x1b[38;5;0;48;5;37m▄",
    "\x1b[48;5;0m     \x1b[38;5;15;48;5;0m▄▄▄\x1b[48;5;15m    \x1b[38;5;15;48;5;0m▄▄\x1b[48;5;0m \x1b[38;5;37;48;5;0m▄\x1b[48;5;37m   \x1b[38;5;37;48;5;0m▄\x1b[48;5;0m  \x1b[m",
    "\x1b[31;42mab\x1b[30;46m▌▒█ \x1b[107m \n \x1b[38;2;9;9;9;48;2;200;1;1mxy\x1b[0m  z",
    "\x1b[97;107mhidden\x1b[30;40mhidden\x1b[38;5;196;48;5;196m\n",
    "\x1b[44m\x1b[2J\x1b[37m a\x1b]0;t\x07 \x1b[48;5;231m  \x1b[mend",
];

#[test]
fn converting_what_was_converted_changes_nothing() {
    for input in SAMPLES {
        let once = string_to_ansi_16(input).unwrap();
        let twice = string_to_ansi_16(&once).unwrap();
        assert_eq!(once, twice);
    }
}

#[test]
fn converted_text_names_16_colors_only() {
    let codes: Vec<String> = (30..=37)
        .chain(40..=47)
        .chain(90..=97)
        .chain(100..=107)
        .map(|code: u32| code.to_string())
        .collect();
    for input in SAMPLES {
        let output = string_to_ansi_16(input).unwrap();
        let mut rest = output.as_str();
        while let Some(start) = rest.find('\x1b') {
            let after = &rest[start + 1..];
            assert!(after.starts_with('['));
            let end = after.find('m').unwrap();
            let params = &after[1..end];
            if params != "0" {
                for param in params.split(';') {
                    assert!(codes.iter().any(|code| code == param));
                }
            }
            rest = &after[end + 1..];
        }
    }
}

use ansi_converter::ansi_styles::{
    ansi_16_to_bg, ansi_16_to_fg, ansi_16_to_rgb, ansi_256_to_ansi_16, ansi_256_to_rgb, default_bg,
    default_fg, rgb_to_ansi_16, rgb_to_ansi_256, rgb_to_hsv, AnsiColor, Ratio,
};

#[test]
fn should_convert_white() {
    let white = AnsiColor::Rgb(255, 255, 255);
    assert_eq!(white.to_ansi_16(), AnsiColor::Ansi16(97));
    assert_eq!(white.to_ansi_256(), AnsiColor::Ansi256(231));

    let white = AnsiColor::Ansi16(97);
    assert_eq!(white.to_rgb(), AnsiColor::Rgb(255, 255, 255));
    assert_eq!(white.to_ansi_256(), AnsiColor::Ansi256(15));

    let white = AnsiColor::Ansi256(231);
    assert_eq!(white.to_rgb(), AnsiColor::Rgb(255, 255, 255));
    assert_eq!(white.to_ansi_16(), AnsiColor::Ansi16(97));

    let white = AnsiColor::Ansi256(15);
    assert_eq!(white.to_rgb(), AnsiColor::Rgb(255, 255, 255));
    assert_eq!(white.to_ansi_16(), AnsiColor::Ansi16(97));
}

#[test]
fn should_convert_high_and_low_intensity() {
    let bright_blue = AnsiColor::Rgb(0, 0, 255);
    assert_eq!(bright_blue.to_ansi_16(), AnsiColor::Ansi16(94));
    assert_eq!(bright_blue.to_ansi_256(), AnsiColor::Ansi256(21));

    let dim_blue = AnsiColor::Rgb(0, 0, 128);
    assert_eq!(dim_blue.to_ansi_16(), AnsiColor::Ansi16(34));
    assert_eq!(dim_blue.to_ansi_256(), AnsiColor::Ansi256(19));
}

#[test]
fn foreground_and_background_should_be_equal() {
    let black_bg = AnsiColor::Ansi16(40);
    let black_fg = AnsiColor::Ansi16(30);
    assert_eq!(black_bg, black_fg);
}

#[test]
fn every_foreground_code_equals_its_background_code() {
    for c in (30u8..=37).chain(90u8..=97) {
        assert_eq!(AnsiColor::Ansi16(c), AnsiColor::Ansi16(c + 10));
        assert_eq!(AnsiColor::Ansi16(c + 10), AnsiColor::Ansi16(c));
    }
}

#[test]
fn different_hues_and_different_representations_are_not_equal() {
    assert_ne!(AnsiColor::Ansi16(31), AnsiColor::Ansi16(32));
    assert_ne!(AnsiColor::Ansi16(31), AnsiColor::Ansi16(91));
    assert_ne!(AnsiColor::Ansi16(30), AnsiColor::Ansi256(0));
    assert_ne!(AnsiColor::Ansi256(16), AnsiColor::Rgb(0, 0, 0));
    assert_ne!(AnsiColor::Rgb(1, 2, 3), AnsiColor::Rgb(1, 2, 4));
    assert_eq!(AnsiColor::Ansi256(7), AnsiColor::Ansi256(7));
    assert_eq!(AnsiColor::Rgb(1, 2, 3), AnsiColor::Rgb(1, 2, 3));
}

#[test]
fn defaults_are_white_on_black() {
    assert_eq!(default_fg(), AnsiColor::Ansi16(37));
    assert_eq!(default_bg(), AnsiColor::Ansi16(40));
    assert_eq!(default_bg(), AnsiColor::Ansi16(30));
}

#[test]
fn sixteen_color_codes_are_brought_to_one_form() {
    assert_eq!(ansi_16_to_fg(31), 31);
    assert_eq!(ansi_16_to_fg(41), 31);
    assert_eq!(ansi_16_to_fg(97), 97);
    assert_eq!(ansi_16_to_fg(107), 97);
    assert_eq!(ansi_16_to_fg(38), 0);
    assert_eq!(ansi_16_to_bg(31), 41);
    assert_eq!(ansi_16_to_bg(41), 41);
    assert_eq!(ansi_16_to_bg(97), 107);
    assert_eq!(ansi_16_to_bg(107), 107);
    assert_eq!(ansi_16_to_bg(0), 0);
}

#[test]
fn hsv_is_exact() {
    let red = rgb_to_hsv(255, 0, 0);
    assert_eq!(red.hue, Ratio { num: 0, den: 255 });
    assert_eq!(red.saturation, Ratio { num: 25500, den: 255 });
    assert_eq!(red.value, Ratio { num: 25500, den: 255 });

    let grey = rgb_to_hsv(128, 128, 128);
    assert_eq!(grey.hue, Ratio { num: 0, den: 1 });
    assert_eq!(grey.saturation, Ratio { num: 0, den: 1 });
    assert_eq!(grey.value, Ratio { num: 12800, den: 255 });

    // Green is strongest: 120 degrees, shifted towards blue.
    let sea = rgb_to_hsv(0, 200, 100);
    assert_eq!(sea.hue, Ratio { num: 120 * 200 + 60 * 100, den: 200 });
    // Blue is strongest: 240 degrees, shifted towards red.
    let violet = rgb_to_hsv(100, 0, 200);
    assert_eq!(violet.hue, Ratio { num: 240 * 200 + 60 * 100, den: 200 });
    // Red is strongest and blue is above green: the hue wraps round below 360.
    let rose = rgb_to_hsv(200, 0, 100);
    assert_eq!(rose.hue, Ratio { num: 360 * 200 - 60 * 100, den: 200 });
    assert_eq!(rose.saturation, Ratio { num: 20000, den: 200 });
}

#[test]
fn value_decides_black_low_and_high_intensity() {
    assert_eq!(rgb_to_ansi_16(63, 0, 0), 30);
    assert_eq!(rgb_to_ansi_16(127, 0, 0), 30);
    assert_eq!(rgb_to_ansi_16(128, 0, 0), 31);
    assert_eq!(rgb_to_ansi_16(191, 0, 0), 31);
    assert_eq!(rgb_to_ansi_16(192, 0, 0), 91);
    assert_eq!(rgb_to_ansi_16(0, 0, 191), 34);
    assert_eq!(rgb_to_ansi_16(0, 0, 192), 94);
    assert_eq!(rgb_to_ansi_16(128, 128, 128), 37);
    assert_eq!(rgb_to_ansi_16(0, 128, 255), 96);
    assert_eq!(rgb_to_ansi_16(255, 255, 0), 93);
    assert_eq!(rgb_to_ansi_16(0, 0, 0), 30);
}

#[test]
fn rgb_falls_on_the_cube_or_on_the_grey_ramp() {
    assert_eq!(rgb_to_ansi_256(255, 0, 0), 196);
    assert_eq!(rgb_to_ansi_256(0, 128, 255), 39);
    assert_eq!(rgb_to_ansi_256(100, 150, 200), 110);
    assert_eq!(rgb_to_ansi_256(0, 0, 0), 16);
    assert_eq!(rgb_to_ansi_256(7, 7, 7), 16);
    assert_eq!(rgb_to_ansi_256(8, 8, 8), 232);
    assert_eq!(rgb_to_ansi_256(128, 128, 128), 244);
    assert_eq!(rgb_to_ansi_256(248, 248, 248), 255);
    assert_eq!(rgb_to_ansi_256(249, 249, 249), 231);
    // The three channels are on one level of the cube: a grey by its red.
    assert_eq!(rgb_to_ansi_256(40, 40, 50), 235);
}

#[test]
fn palette_indices_have_their_rgb_values() {
    assert_eq!(ansi_256_to_rgb(0), (0, 0, 0));
    assert_eq!(ansi_256_to_rgb(1), (128, 0, 0));
    assert_eq!(ansi_256_to_rgb(7), (192, 192, 192));
    assert_eq!(ansi_256_to_rgb(8), (0, 0, 0));
    assert_eq!(ansi_256_to_rgb(9), (255, 0, 0));
    assert_eq!(ansi_256_to_rgb(15), (255, 255, 255));
    assert_eq!(ansi_256_to_rgb(16), (0, 0, 0));
    assert_eq!(ansi_256_to_rgb(21), (0, 0, 255));
    assert_eq!(ansi_256_to_rgb(37), (0, 153, 153));
    assert_eq!(ansi_256_to_rgb(59), (51, 51, 51));
    assert_eq!(ansi_256_to_rgb(196), (255, 0, 0));
    assert_eq!(ansi_256_to_rgb(231), (255, 255, 255));
    assert_eq!(ansi_256_to_rgb(232), (8, 8, 8));
    assert_eq!(ansi_256_to_rgb(255), (238, 238, 238));
}

#[test]
fn sixteen_colors_have_their_rgb_values() {
    assert_eq!(ansi_16_to_rgb(30), (0, 0, 0));
    assert_eq!(ansi_16_to_rgb(41), (128, 0, 0));
    assert_eq!(ansi_16_to_rgb(37), (192, 192, 192));
    assert_eq!(ansi_16_to_rgb(47), (192, 192, 192));
    assert_eq!(ansi_16_to_rgb(90), (0, 0, 0));
    assert_eq!(ansi_16_to_rgb(96), (0, 255, 255));
    assert_eq!(ansi_16_to_rgb(106), (0, 255, 255));
    assert_eq!(ansi_16_to_rgb(5), (0, 0, 0));
    assert_eq!(AnsiColor::Ansi16(33).to_rgb(), AnsiColor::Rgb(128, 128, 0));
    assert_eq!(AnsiColor::Rgb(1, 2, 3).to_rgb(), AnsiColor::Rgb(1, 2, 3));
}

#[test]
fn palette_indices_go_to_16_colors_by_their_rgb_values() {
    assert_eq!(ansi_256_to_ansi_16(0), 30);
    assert_eq!(ansi_256_to_ansi_16(1), 31);
    assert_eq!(ansi_256_to_ansi_16(7), 97);
    assert_eq!(ansi_256_to_ansi_16(8), 30);
    assert_eq!(ansi_256_to_ansi_16(9), 91);
    assert_eq!(ansi_256_to_ansi_16(15), 97);
    assert_eq!(ansi_256_to_ansi_16(37), 36);
    assert_eq!(ansi_256_to_ansi_16(51), 96);
    assert_eq!(ansi_256_to_ansi_16(244), 37);
    assert_eq!(AnsiColor::Ansi256(196).to_ansi_16(), AnsiColor::Ansi16(91));
}

#[test]
fn sixteen_colors_keep_their_place_in_the_256_palette() {
    assert_eq!(AnsiColor::Ansi16(30).to_ansi_256(), AnsiColor::Ansi256(0));
    assert_eq!(AnsiColor::Ansi16(37).to_ansi_256(), AnsiColor::Ansi256(7));
    assert_eq!(AnsiColor::Ansi16(44).to_ansi_256(), AnsiColor::Ansi256(4));
    assert_eq!(AnsiColor::Ansi16(90).to_ansi_256(), AnsiColor::Ansi256(8));
    assert_eq!(AnsiColor::Ansi16(107).to_ansi_256(), AnsiColor::Ansi256(15));
    assert_eq!(AnsiColor::Ansi16(1).to_ansi_256(), AnsiColor::Ansi256(0));
    assert_eq!(AnsiColor::Ansi256(77).to_ansi_256(), AnsiColor::Ansi256(77));
}

#[test]
fn conversion_to_16_colors_gives_the_foreground_form() {
    assert_eq!(AnsiColor::Ansi16(41).to_ansi_16().fg_code(), "31");
    assert_eq!(AnsiColor::Ansi16(107).to_ansi_16().fg_code(), "97");
    match AnsiColor::Ansi16(107).to_ansi_16() {
        AnsiColor::Ansi16(code) => assert_eq!(code, 97),
        other => panic!("not a 16-color value: {:?}", other),
    }
    match AnsiColor::Ansi16(3).to_ansi_16() {
        AnsiColor::Ansi16(code) => assert_eq!(code, 0),
        other => panic!("not a 16-color value: {:?}", other),
    }
}

#[test]
fn sgr_parameters_of_every_representation() {
    assert_eq!(AnsiColor::Ansi16(31).fg_code(), "31");
    assert_eq!(AnsiColor::Ansi16(41).fg_code(), "31");
    assert_eq!(AnsiColor::Ansi16(31).bg_code(), "41");
    assert_eq!(AnsiColor::Ansi16(97).bg_code(), "107");
    assert_eq!(AnsiColor::Ansi16(107).fg_code(), "97");
    assert_eq!(AnsiColor::Ansi16(12).fg_code(), "0");
    assert_eq!(AnsiColor::Ansi256(0).fg_code(), "38;5;0");
    assert_eq!(AnsiColor::Ansi256(7).bg_code(), "48;5;7");
    assert_eq!(AnsiColor::Ansi256(255).fg_code(), "38;5;255");
    assert_eq!(AnsiColor::Rgb(1, 22, 255).fg_code(), "38;2;1;22;255");
    assert_eq!(AnsiColor::Rgb(0, 100, 9).bg_code(), "48;2;0;100;9");
}

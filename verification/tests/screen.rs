use keyboard_oled::error::KeyboardError;
use keyboard_oled::screen::{
    host_screen, screen_text, str_width, underline, FontMetrics, Line, Point, Screen,
};

const FONT_12X16: FontMetrics = FontMetrics {
    character_width: 12,
    character_height: 16,
    character_spacing: 0,
    variable_width: false,
};

const SPACED: FontMetrics = FontMetrics {
    character_width: 6,
    character_height: 8,
    character_spacing: 2,
    variable_width: false,
};

const VARIABLE: FontMetrics = FontMetrics {
    character_width: 6,
    character_height: 8,
    character_spacing: 1,
    variable_width: true,
};

#[test]
fn width_in_a_fixed_font() {
    assert_eq!(str_width(4, &Vec::new(), &FONT_12X16), Some(48));
    assert_eq!(str_width(1, &Vec::new(), &FONT_12X16), Some(12));
    assert_eq!(str_width(4, &vec![1, 1, 1, 1], &FONT_12X16), Some(48));
}

#[test]
fn width_counts_a_gap_between_characters() {
    assert_eq!(str_width(4, &Vec::new(), &SPACED), Some(4 * 6 + 3 * 2));
    assert_eq!(str_width(1, &Vec::new(), &SPACED), Some(6));
}

#[test]
fn width_in_a_variable_font_adds_the_characters_up() {
    assert_eq!(str_width(3, &vec![2, 5, 3], &VARIABLE), Some(2 + 5 + 3 + 2));
    assert_eq!(str_width(3, &Vec::new(), &VARIABLE), Some(2));
    assert_eq!(str_width(4, &vec![2, 5, 3], &VARIABLE), Some(2 + 5 + 3 + 3));
}

#[test]
fn an_empty_text_has_no_width() {
    assert_eq!(str_width(0, &Vec::new(), &FONT_12X16), None);
    assert_eq!(str_width(0, &vec![3], &VARIABLE), None);
}

#[test]
fn a_width_beyond_32_bits_is_none() {
    // 357913941 * 12 = 4294967292, one more character is too many
    assert_eq!(str_width(357_913_941, &Vec::new(), &FONT_12X16), Some(4_294_967_292));
    assert_eq!(str_width(357_913_942, &Vec::new(), &FONT_12X16), None);
    assert_eq!(str_width(usize::MAX, &Vec::new(), &FONT_12X16), None);
    let wide = FontMetrics { character_width: u32::MAX, ..FONT_12X16 };
    assert_eq!(str_width(1, &Vec::new(), &wide), Some(u32::MAX));
    assert_eq!(str_width(2, &Vec::new(), &wide), None);
    assert_eq!(str_width(2, &vec![u32::MAX, 1], &VARIABLE), None);
    assert_eq!(str_width(2, &vec![u32::MAX - 2, 1], &VARIABLE), Some(u32::MAX));
}

#[test]
fn text_is_the_name_in_capitals() {
    assert_eq!(screen_text(Some("host")), Ok("HOST".to_string()));
    assert_eq!(screen_text(Some("my-Laptop01")), Ok("MY-LAPTOP01".to_string()));
    assert_eq!(screen_text(Some("")), Ok(String::new()));
    assert_eq!(screen_text(Some("straße")), Ok("STRASSE".to_string()));
}

#[test]
fn a_name_that_is_no_text_is_an_error() {
    assert_eq!(screen_text(None), Err(KeyboardError::InvalidHostname));
}

#[test]
fn underline_runs_below_the_text() {
    assert_eq!(
        underline(4, &Vec::new(), &FONT_12X16),
        Ok(Line { start: Point { x: 0, y: 16 }, end: Point { x: 48, y: 16 } })
    );
    assert_eq!(
        underline(3, &vec![2, 5, 3], &VARIABLE),
        Ok(Line { start: Point { x: 0, y: 8 }, end: Point { x: 12, y: 8 } })
    );
}

#[test]
fn no_underline_for_an_empty_or_too_wide_text() {
    assert_eq!(underline(0, &Vec::new(), &FONT_12X16), Err(KeyboardError::TextLayout));
    assert_eq!(underline(357_913_942, &Vec::new(), &FONT_12X16), Err(KeyboardError::TextLayout));
    // 178956971 * 12 = 2147483652 fits in 32 bits and is no coordinate
    assert_eq!(underline(178_956_971, &Vec::new(), &FONT_12X16), Err(KeyboardError::TextLayout));
    assert_eq!(
        underline(178_956_970, &Vec::new(), &FONT_12X16),
        Ok(Line { start: Point { x: 0, y: 16 }, end: Point { x: 2_147_483_640, y: 16 } })
    );
    let tall = FontMetrics { character_height: 1 << 31, ..FONT_12X16 };
    assert_eq!(underline(4, &Vec::new(), &tall), Err(KeyboardError::TextLayout));
}

#[test]
fn host_screen_is_the_name_in_capitals_underlined() {
    assert_eq!(
        host_screen(Some("host")),
        Ok(Screen {
            text: "HOST".to_string(),
            origin: Point { x: 0, y: 0 },
            underline: Line { start: Point { x: 0, y: 16 }, end: Point { x: 48, y: 16 } },
        })
    );
}

#[test]
fn host_screen_measures_the_capitals_in_bytes() {
    // the capital of the one character, two bytes long, is two characters of one byte
    let screen = host_screen(Some("ß")).unwrap();
    assert_eq!(screen.text, "SS");
    assert_eq!(screen.underline.end, Point { x: 24, y: 16 });
    // a capital of two bytes counts as two cells
    let screen = host_screen(Some("é")).unwrap();
    assert_eq!(screen.text, "É");
    assert_eq!(screen.underline.end, Point { x: 24, y: 16 });
}

#[test]
fn host_screen_needs_a_name() {
    assert_eq!(host_screen(None), Err(KeyboardError::InvalidHostname));
    assert_eq!(host_screen(Some("")), Err(KeyboardError::TextLayout));
}

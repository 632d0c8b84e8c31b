use fervim::color::{first_color, hex_color, hex_digit_value, named_color, parse_color, Color};

fn token(text: &str) -> Option<String> {
    Some(text.to_string())
}

#[test]
fn hex_digits_have_their_values() {
    assert_eq!(hex_digit_value('0'), Some(0));
    assert_eq!(hex_digit_value('9'), Some(9));
    assert_eq!(hex_digit_value('a'), Some(10));
    assert_eq!(hex_digit_value('f'), Some(15));
    assert_eq!(hex_digit_value('A'), Some(10));
    assert_eq!(hex_digit_value('F'), Some(15));
    assert_eq!(hex_digit_value('g'), None);
    assert_eq!(hex_digit_value('G'), None);
    assert_eq!(hex_digit_value('/'), None);
    assert_eq!(hex_digit_value(':'), None);
    assert_eq!(hex_digit_value('@'), None);
    assert_eq!(hex_digit_value('`'), None);
    assert_eq!(hex_digit_value('+'), None);
    assert_eq!(hex_digit_value(' '), None);
}

#[test]
fn hex_tokens_give_rgb() {
    assert_eq!(hex_color("#000000"), Some(Color::Rgb { r: 0, g: 0, b: 0 }));
    assert_eq!(hex_color("#ffffff"), Some(Color::Rgb { r: 255, g: 255, b: 255 }));
    assert_eq!(hex_color("#1a2B3c"), Some(Color::Rgb { r: 0x1a, g: 0x2b, b: 0x3c }));
    assert_eq!(hex_color("#FF8000"), Some(Color::Rgb { r: 255, g: 128, b: 0 }));
}

#[test]
fn malformed_hex_tokens_give_nothing() {
    for bad in ["", "#", "#12345", "#1234567", "#12345g", "#+1+2+3", "123456", "#12 456", "#ééé"]
    {
        assert_eq!(hex_color(bad), None, "token {:?}", bad);
        assert_eq!(parse_color(&token(bad)), None, "token {:?}", bad);
    }
}

#[test]
fn every_color_name_is_known() {
    let names = [
        ("black", Color::Black),
        ("red", Color::Red),
        ("green", Color::Green),
        ("yellow", Color::Yellow),
        ("blue", Color::Blue),
        ("magenta", Color::Magenta),
        ("cyan", Color::Cyan),
        ("white", Color::White),
        ("dark_grey", Color::DarkGrey),
        ("dark_red", Color::DarkRed),
        ("dark_green", Color::DarkGreen),
        ("dark_yellow", Color::DarkYellow),
        ("dark_blue", Color::DarkBlue),
        ("dark_magenta", Color::DarkMagenta),
        ("dark_cyan", Color::DarkCyan),
        ("grey", Color::Grey),
    ];
    for (name, color) in names {
        assert_eq!(named_color(name), Some(color));
        assert_eq!(parse_color(&token(name)), Some(color));
    }
}

#[test]
fn unknown_names_give_nothing() {
    for bad in ["", "reset", "gray", "dark grey", "darkred", " red", "red ", "purple"] {
        assert_eq!(named_color(bad), None, "name {:?}", bad);
        assert_eq!(parse_color(&token(bad)), None, "name {:?}", bad);
    }
}

#[test]
fn names_are_matched_in_any_letter_case() {
    assert_eq!(parse_color(&token("RED")), Some(Color::Red));
    assert_eq!(parse_color(&token("Dark_Blue")), Some(Color::DarkBlue));
    assert_eq!(parse_color(&token("gReY")), Some(Color::Grey));
    // the lookup itself takes lower-case names only
    assert_eq!(named_color("RED"), None);
}

#[test]
fn absent_token_gives_nothing() {
    assert_eq!(parse_color(&None), None);
}

#[test]
fn parse_color_reads_hex_and_names() {
    assert_eq!(parse_color(&token("#102030")), Some(Color::Rgb { r: 16, g: 32, b: 48 }));
    assert_eq!(parse_color(&token("#ABCDEF")), Some(Color::Rgb { r: 0xab, g: 0xcd, b: 0xef }));
    assert_eq!(parse_color(&token("cyan")), Some(Color::Cyan));
}

#[test]
fn first_color_takes_the_first_that_resolves() {
    assert_eq!(first_color(&token("red"), &token("blue")), Some(Color::Red));
    assert_eq!(first_color(&None, &token("blue")), Some(Color::Blue));
    assert_eq!(first_color(&token("nonsense"), &token("blue")), Some(Color::Blue));
    assert_eq!(first_color(&token("#00ff00"), &None), Some(Color::Rgb { r: 0, g: 255, b: 0 }));
    assert_eq!(first_color(&token("nonsense"), &token("#12")), None);
    assert_eq!(first_color(&None, &None), None);
}

use mc_entity::display_name::{format_display_name, parse_color_code, DisplayName, NameColor};

#[test]
fn format_display_name_plain() {
    let name = DisplayName {
        text: "Steve".to_string(),
        color: NameColor::White,
        bold: false,
        italic: false,
    };
    assert_eq!(format_display_name(&name), "\u{00A7}fSteve");
}

#[test]
fn format_display_name_bold_italic() {
    let name = DisplayName {
        text: "Hero".to_string(),
        color: NameColor::Gold,
        bold: true,
        italic: true,
    };
    let formatted = format_display_name(&name);
    assert!(formatted.contains("\u{00A7}6"));
    assert!(formatted.contains("\u{00A7}l"));
    assert!(formatted.contains("\u{00A7}o"));
    assert!(formatted.ends_with("Hero"));
}

#[test]
fn parse_color_code_valid() {
    assert_eq!(parse_color_code('0'), Some(NameColor::Black));
    assert_eq!(parse_color_code('a'), Some(NameColor::Green));
    assert_eq!(parse_color_code('f'), Some(NameColor::White));
}

#[test]
fn parse_color_code_invalid() {
    assert_eq!(parse_color_code('z'), None);
    assert_eq!(parse_color_code('g'), None);
}

#[test]
fn roundtrip_color_code() {
    let name = DisplayName {
        text: "Test".to_string(),
        color: NameColor::Red,
        bold: false,
        italic: false,
    };
    let formatted = format_display_name(&name);
    // The color code for Red is 'c'
    assert_eq!(parse_color_code('c'), Some(NameColor::Red));
    assert!(formatted.starts_with("\u{00A7}c"));
}

#[test]
fn all_16_color_codes_parse() {
    let codes = ['0', '1', '2', '3', '4', '5', '6', '7',
                 '8', '9', 'a', 'b', 'c', 'd', 'e', 'f'];
    for code in codes {
        assert!(parse_color_code(code).is_some(), "code '{code}' should parse");
    }
}

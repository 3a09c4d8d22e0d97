//! Display names of entities: colours and Minecraft formatting codes.
use vstd::prelude::*;
use vstd::string::StringExecFns;

verus! {

/// The 16 Minecraft color variants for entity names.
#[derive(Debug, Clone, Copy, PartialEq, Eq, Hash, Structural)]
pub enum NameColor {
    White,
    Red,
    Green,
    Blue,
    Yellow,
    Aqua,
    Gold,
    Gray,
    DarkRed,
    DarkGreen,
    DarkBlue,
    DarkAqua,
    DarkGray,
    Purple,
    LightPurple,
    Black,
}

/// A styled display name for an entity.
#[derive(Debug, Clone, PartialEq, Eq)]
pub struct DisplayName {
    pub text: String,
    pub color: NameColor,
    pub bold: bool,
    pub italic: bool,
}

/// The formatting code character of each colour.
pub open spec fn color_code(color: NameColor) -> char {
    match color {
        NameColor::White => 'f',
        NameColor::Red => 'c',
        NameColor::Green => 'a',
        NameColor::Blue => '9',
        NameColor::Yellow => 'e',
        NameColor::Aqua => 'b',
        NameColor::Gold => '6',
        NameColor::Gray => '7',
        NameColor::DarkRed => '4',
        NameColor::DarkGreen => '2',
        NameColor::DarkBlue => '1',
        NameColor::DarkAqua => '3',
        NameColor::DarkGray => '8',
        NameColor::Purple => '5',
        NameColor::LightPurple => 'd',
        NameColor::Black => '0',
    }
}

/// Distinct colours have distinct codes, so parsing the code of a colour
/// (as `parse_color_code` does) gives that colour back.
pub proof fn lemma_color_code_injective(a: NameColor, b: NameColor)
    requires
        color_code(a) == color_code(b),
    ensures
        a == b,
{
}

/// The section sign that starts a formatting code.
pub open spec fn section() -> char {
    '\u{00A7}'
}

/// The formatted text of a display name: the colour code, then the bold and
/// italic codes when set, then the text.
pub open spec fn formatted(name: DisplayName) -> Seq<char> {
    seq![section(), color_code(name.color)]
        + (if name.bold { seq![section(), 'l'] } else { Seq::<char>::empty() })
        + (if name.italic { seq![section(), 'o'] } else { Seq::<char>::empty() })
        + name.text@
}

fn color_prefix(color: NameColor) -> (s: &'static str)
    ensures
        s@ == seq![section(), color_code(color)],
{
    let s = match color {
        NameColor::White => "\u{00A7}f",
        NameColor::Red => "\u{00A7}c",
        NameColor::Green => "\u{00A7}a",
        NameColor::Blue => "\u{00A7}9",
        NameColor::Yellow => "\u{00A7}e",
        NameColor::Aqua => "\u{00A7}b",
        NameColor::Gold => "\u{00A7}6",
        NameColor::Gray => "\u{00A7}7",
        NameColor::DarkRed => "\u{00A7}4",
        NameColor::DarkGreen => "\u{00A7}2",
        NameColor::DarkBlue => "\u{00A7}1",
        NameColor::DarkAqua => "\u{00A7}3",
        NameColor::DarkGray => "\u{00A7}8",
        NameColor::Purple => "\u{00A7}5",
        NameColor::LightPurple => "\u{00A7}d",
        NameColor::Black => "\u{00A7}0",
    };
    proof {
        reveal_strlit("\u{00A7}f");
        reveal_strlit("\u{00A7}c");
        reveal_strlit("\u{00A7}a");
        reveal_strlit("\u{00A7}9");
        reveal_strlit("\u{00A7}e");
        reveal_strlit("\u{00A7}b");
        reveal_strlit("\u{00A7}6");
        reveal_strlit("\u{00A7}7");
        reveal_strlit("\u{00A7}4");
        reveal_strlit("\u{00A7}2");
        reveal_strlit("\u{00A7}1");
        reveal_strlit("\u{00A7}3");
        reveal_strlit("\u{00A7}8");
        reveal_strlit("\u{00A7}5");
        reveal_strlit("\u{00A7}d");
        reveal_strlit("\u{00A7}0");
    }
    s
}

/// Formats a `DisplayName` into a string with Minecraft-style formatting codes.
pub fn format_display_name(name: &DisplayName) -> (r: String)
    ensures
        r@ == formatted(*name),
{
    let mut result = String::from_str(color_prefix(name.color));
    if name.bold {
        proof {
            reveal_strlit("\u{00A7}l");
        }
        result.append("\u{00A7}l");
    }
    if name.italic {
        proof {
            reveal_strlit("\u{00A7}o");
        }
        result.append("\u{00A7}o");
    }
    result.append(name.text.as_str());
    assert(result@ =~= formatted(*name));
    result
}

/// Parses a Minecraft color code character into a `NameColor`.
pub fn parse_color_code(code: char) -> (r: Option<NameColor>)
    ensures
        match r {
            Some(c) => color_code(c) == code,
            None => forall|c: NameColor| color_code(c) != code,
        },
{
    match code {
        '0' => Some(NameColor::Black),
        '1' => Some(NameColor::DarkBlue),
        '2' => Some(NameColor::DarkGreen),
        '3' => Some(NameColor::DarkAqua),
        '4' => Some(NameColor::DarkRed),
        '5' => Some(NameColor::Purple),
        '6' => Some(NameColor::Gold),
        '7' => Some(NameColor::Gray),
        '8' => Some(NameColor::DarkGray),
        '9' => Some(NameColor::Blue),
        'a' => Some(NameColor::Green),
        'b' => Some(NameColor::Aqua),
        'c' => Some(NameColor::Red),
        'd' => Some(NameColor::LightPurple),
        'e' => Some(NameColor::Yellow),
        'f' => Some(NameColor::White),
        _ => None,
    }
}

} // verus!

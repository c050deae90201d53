//! Colors as text: the hexadecimal form `#rrggbb`, which can also be read
//! back, and the functional forms `rgb(r, g, b)` and `hsl(h, s%, l%)`, and
//! with an alpha value `rgba(r, g, b, a)` and `hsla(h, s%, l%, a)`.

use vstd::prelude::*;

verus! {

/// The lower-case hexadecimal digit for a value from 0 to 15.
pub open spec fn hex_digit(value: int) -> char {
    if value == 0 {
        '0'
    } else if value == 1 {
        '1'
    } else if value == 2 {
        '2'
    } else if value == 3 {
        '3'
    } else if value == 4 {
        '4'
    } else if value == 5 {
        '5'
    } else if value == 6 {
        '6'
    } else if value == 7 {
        '7'
    } else if value == 8 {
        '8'
    } else if value == 9 {
        '9'
    } else if value == 10 {
        'a'
    } else if value == 11 {
        'b'
    } else if value == 12 {
        'c'
    } else if value == 13 {
        'd'
    } else if value == 14 {
        'e'
    } else {
        'f'
    }
}

/// The value of a hexadecimal digit, in either case; `None` for any other
/// character.
pub open spec fn hex_value(digit: char) -> Option<int> {
    if digit == '0' {
        Some(0)
    } else if digit == '1' {
        Some(1)
    } else if digit == '2' {
        Some(2)
    } else if digit == '3' {
        Some(3)
    } else if digit == '4' {
        Some(4)
    } else if digit == '5' {
        Some(5)
    } else if digit == '6' {
        Some(6)
    } else if digit == '7' {
        Some(7)
    } else if digit == '8' {
        Some(8)
    } else if digit == '9' {
        Some(9)
    } else if digit == 'a' || digit == 'A' {
        Some(10)
    } else if digit == 'b' || digit == 'B' {
        Some(11)
    } else if digit == 'c' || digit == 'C' {
        Some(12)
    } else if digit == 'd' || digit == 'D' {
        Some(13)
    } else if digit == 'e' || digit == 'E' {
        Some(14)
    } else if digit == 'f' || digit == 'F' {
        Some(15)
    } else {
        None
    }
}

/// The two hexadecimal digits of a byte, the high one first: a byte below 16
/// gets a leading zero.
pub open spec fn hex_pair(byte: int) -> Seq<char> {
    seq![hex_digit(byte / 16), hex_digit(byte % 16)]
}

/// The hexadecimal form of a color: `#` and the two digits of each channel.
pub open spec fn spec_hex(rgb: (int, int, int)) -> Seq<char> {
    seq!['#'] + hex_pair(rgb.0) + hex_pair(rgb.1) + hex_pair(rgb.2)
}

/// The byte that two hexadecimal digits stand for, if both are digits.
pub open spec fn pair_value(high: char, low: char) -> Option<int> {
    match (hex_value(high), hex_value(low)) {
        (Some(h), Some(l)) => Some(16 * h + l),
        _ => None,
    }
}

/// The color that a text in hexadecimal form stands for: the text is `#`
/// followed by exactly six hexadecimal digits, or it stands for no color.
pub open spec fn spec_parse_hex(text: Seq<char>) -> Option<(int, int, int)> {
    if text.len() == 7 && text[0] == '#' {
        match (
            pair_value(text[1], text[2]),
            pair_value(text[3], text[4]),
            pair_value(text[5], text[6]),
        ) {
            (Some(r), Some(g), Some(b)) => Some((r, g, b)),
            _ => None,
        }
    } else {
        None
    }
}

/// The decimal digits of a number, without leading zeros.
pub open spec fn decimal(number: nat) -> Seq<char>
    decreases number,
{
    if number < 10 {
        seq![hex_digit(number as int)]
    } else {
        decimal(number / 10) + seq![hex_digit((number % 10) as int)]
    }
}

/// The text `rgb(r, g, b)` for a color.
pub open spec fn spec_rgb_string(rgb: (int, int, int)) -> Seq<char> {
    seq!['r', 'g', 'b', '('] + decimal(rgb.0 as nat) + seq![',', ' '] + decimal(rgb.1 as nat)
        + seq![',', ' '] + decimal(rgb.2 as nat) + seq![')']
}

/// The text `hsl(h, s%, l%)` for a color.
pub open spec fn spec_hsl_string(hsl: (int, int, int)) -> Seq<char> {
    seq!['h', 's', 'l', '('] + decimal(hsl.0 as nat) + seq![',', ' '] + decimal(hsl.1 as nat)
        + seq!['%', ',', ' '] + decimal(hsl.2 as nat) + seq!['%', ')']
}

/// The text `rgba(r, g, b, a)` for a color and an alpha value that is
/// already written out.
pub open spec fn spec_rgba_string(rgb: (int, int, int), alpha: Seq<char>) -> Seq<char> {
    seq!['r', 'g', 'b', 'a', '('] + decimal(rgb.0 as nat) + seq![',', ' '] + decimal(rgb.1 as nat)
        + seq![',', ' '] + decimal(rgb.2 as nat) + seq![',', ' '] + alpha + seq![')']
}

/// The text `hsla(h, s%, l%, a)` for a color and an alpha value that is
/// already written out.
pub open spec fn spec_hsla_string(hsl: (int, int, int), alpha: Seq<char>) -> Seq<char> {
    seq!['h', 's', 'l', 'a', '('] + decimal(hsl.0 as nat) + seq![',', ' '] + decimal(hsl.1 as nat)
        + seq!['%', ',', ' '] + decimal(hsl.2 as nat) + seq!['%', ',', ' '] + alpha + seq![')']
}

/// The digit for a value from 0 to 15, as a text of one character.
fn digit_text(value: u32) -> (text: &'static str)
    requires
        value < 16,
    ensures
        text@ == seq![hex_digit(value as int)],
{
    proof {
        reveal_strlit("0");
        reveal_strlit("1");
        reveal_strlit("2");
        reveal_strlit("3");
        reveal_strlit("4");
        reveal_strlit("5");
        reveal_strlit("6");
        reveal_strlit("7");
        reveal_strlit("8");
        reveal_strlit("9");
        reveal_strlit("a");
        reveal_strlit("b");
        reveal_strlit("c");
        reveal_strlit("d");
        reveal_strlit("e");
        reveal_strlit("f");
    }
    let text = match value {
        0 => "0",
        1 => "1",
        2 => "2",
        3 => "3",
        4 => "4",
        5 => "5",
        6 => "6",
        7 => "7",
        8 => "8",
        9 => "9",
        10 => "a",
        11 => "b",
        12 => "c",
        13 => "d",
        14 => "e",
        _ => "f",
    };
    assert(text@ =~= seq![hex_digit(value as int)]);
    text
}

/// Appends the two hexadecimal digits of a byte.
fn push_hex_pair(text: &mut String, byte: u8)
    ensures
        final(text)@ == old(text)@ + hex_pair(byte as int),
{
    text.append(digit_text((byte / 16) as u32));
    text.append(digit_text((byte % 16) as u32));
    assert(text@ =~= old(text)@ + hex_pair(byte as int));
}

/// Appends the decimal digits of a number.
fn push_decimal(text: &mut String, number: u32)
    ensures
        final(text)@ == old(text)@ + decimal(number as nat),
    decreases number,
{
    if number >= 10 {
        push_decimal(text, number / 10);
    }
    text.append(digit_text(number % 10));
    assert(text@ =~= old(text)@ + decimal(number as nat));
}

/// Formats a color in hexadecimal form, `#rrggbb`, in lower case.
pub fn rgb_to_hex(rgb: [u8; 3]) -> (text: String)
    ensures
        text@ == spec_hex((rgb[0] as int, rgb[1] as int, rgb[2] as int)),
        text@.len() == 7,
{
    let mut text = String::new();
    proof {
        reveal_strlit("#");
    }
    text.append("#");
    push_hex_pair(&mut text, rgb[0]);
    push_hex_pair(&mut text, rgb[1]);
    push_hex_pair(&mut text, rgb[2]);
    assert(text@ =~= spec_hex((rgb[0] as int, rgb[1] as int, rgb[2] as int)));
    text
}

/// Formats a color as `rgb(r, g, b)`.
pub fn rgb_to_string(rgb: [u8; 3]) -> (text: String)
    ensures
        text@ == spec_rgb_string((rgb[0] as int, rgb[1] as int, rgb[2] as int)),
{
    let mut text = String::new();
    proof {
        reveal_strlit("rgb(");
        reveal_strlit(", ");
        reveal_strlit(")");
    }
    text.append("rgb(");
    push_decimal(&mut text, rgb[0] as u32);
    text.append(", ");
    push_decimal(&mut text, rgb[1] as u32);
    text.append(", ");
    push_decimal(&mut text, rgb[2] as u32);
    text.append(")");
    assert(text@ =~= spec_rgb_string((rgb[0] as int, rgb[1] as int, rgb[2] as int)));
    text
}

/// Formats a color as `hsl(h, s%, l%)`.
pub fn hsl_to_string(hsl: [u32; 3]) -> (text: String)
    ensures
        text@ == spec_hsl_string((hsl[0] as int, hsl[1] as int, hsl[2] as int)),
{
    let mut text = String::new();
    proof {
        reveal_strlit("hsl(");
        reveal_strlit(", ");
        reveal_strlit("%, ");
        reveal_strlit("%)");
    }
    text.append("hsl(");
    push_decimal(&mut text, hsl[0]);
    text.append(", ");
    push_decimal(&mut text, hsl[1]);
    text.append("%, ");
    push_decimal(&mut text, hsl[2]);
    text.append("%)");
    assert(text@ =~= spec_hsl_string((hsl[0] as int, hsl[1] as int, hsl[2] as int)));
    text
}

/// Formats a color with an alpha value as `rgba(r, g, b, a)`. The alpha
/// value is given as the text that is to stand for it.
pub fn rgba_to_string(rgb: [u8; 3], alpha: &str) -> (text: String)
    ensures
        text@ == spec_rgba_string((rgb[0] as int, rgb[1] as int, rgb[2] as int), alpha@),
{
    let mut text = String::new();
    proof {
        reveal_strlit("rgba(");
        reveal_strlit(", ");
        reveal_strlit(")");
    }
    text.append("rgba(");
    push_decimal(&mut text, rgb[0] as u32);
    text.append(", ");
    push_decimal(&mut text, rgb[1] as u32);
    text.append(", ");
    push_decimal(&mut text, rgb[2] as u32);
    text.append(", ");
    text.append(alpha);
    text.append(")");
    assert(text@ =~= spec_rgba_string(
        (rgb[0] as int, rgb[1] as int, rgb[2] as int),
        alpha@,
    ));
    text
}

/// Formats a color with an alpha value as `hsla(h, s%, l%, a)`. The alpha
/// value is given as the text that is to stand for it.
pub fn hsla_to_string(hsl: [u32; 3], alpha: &str) -> (text: String)
    ensures
        text@ == spec_hsla_string((hsl[0] as int, hsl[1] as int, hsl[2] as int), alpha@),
{
    let mut text = String::new();
    proof {
        reveal_strlit("hsla(");
        reveal_strlit(", ");
        reveal_strlit("%, ");
        reveal_strlit(")");
    }
    text.append("hsla(");
    push_decimal(&mut text, hsl[0]);
    text.append(", ");
    push_decimal(&mut text, hsl[1]);
    text.append("%, ");
    push_decimal(&mut text, hsl[2]);
    text.append("%, ");
    text.append(alpha);
    text.append(")");
    assert(text@ =~= spec_hsla_string(
        (hsl[0] as int, hsl[1] as int, hsl[2] as int),
        alpha@,
    ));
    text
}

/// Reads one hexadecimal digit.
fn digit_value(digit: char) -> (value: Option<u8>)
    ensures
        value.is_some() == hex_value(digit).is_some(),
        value matches Some(v) ==> hex_value(digit) == Some(v as int) && v < 16,
{
    match digit {
        '0' => Some(0),
        '1' => Some(1),
        '2' => Some(2),
        '3' => Some(3),
        '4' => Some(4),
        '5' => Some(5),
        '6' => Some(6),
        '7' => Some(7),
        '8' => Some(8),
        '9' => Some(9),
        'a' | 'A' => Some(10),
        'b' | 'B' => Some(11),
        'c' | 'C' => Some(12),
        'd' | 'D' => Some(13),
        'e' | 'E' => Some(14),
        'f' | 'F' => Some(15),
        _ => None,
    }
}

/// Reads the byte that two hexadecimal digits stand for.
fn byte_value(high: char, low: char) -> (value: Option<u8>)
    ensures
        value.is_some() == pair_value(high, low).is_some(),
        value matches Some(v) ==> pair_value(high, low) == Some(v as int),
{
    match (digit_value(high), digit_value(low)) {
        (Some(h), Some(l)) => Some(16 * h + l),
        _ => None,
    }
}

/// Reads a color in hexadecimal form: `#` followed by exactly six
/// hexadecimal digits, in either case. Any other text is no color.
pub fn hex_to_rgb(text: &str) -> (rgb: Option<[u8; 3]>)
    ensures
        rgb.is_some() == spec_parse_hex(text@).is_some(),
        rgb matches Some(channels) ==> spec_parse_hex(text@) == Some(
            (channels[0] as int, channels[1] as int, channels[2] as int),
        ),
{
    if text.unicode_len() != 7 {
        return None;
    }
    if text.get_char(0) != '#' {
        return None;
    }
    let r = byte_value(text.get_char(1), text.get_char(2));
    let g = byte_value(text.get_char(3), text.get_char(4));
    let b = byte_value(text.get_char(5), text.get_char(6));
    match (r, g, b) {
        (Some(r), Some(g), Some(b)) => Some([r, g, b]),
        _ => None,
    }
}

/// The hexadecimal form of a color is always seven characters long: `#`
/// and six lower-case hexadecimal digits, two for each channel.
pub proof fn lemma_hex_has_seven_characters(rgb: (int, int, int))
    requires
        0 <= rgb.0 < 256,
        0 <= rgb.1 < 256,
        0 <= rgb.2 < 256,
    ensures
        spec_hex(rgb).len() == 7,
        spec_hex(rgb)[0] == '#',
        forall|i: int| 1 <= i < 7 ==> hex_value(#[trigger] spec_hex(rgb)[i]).is_some(),
        spec_hex(rgb)[1] == hex_digit(rgb.0 / 16),
        spec_hex(rgb)[2] == hex_digit(rgb.0 % 16),
        spec_hex(rgb)[3] == hex_digit(rgb.1 / 16),
        spec_hex(rgb)[4] == hex_digit(rgb.1 % 16),
        spec_hex(rgb)[5] == hex_digit(rgb.2 / 16),
        spec_hex(rgb)[6] == hex_digit(rgb.2 % 16),
{
    lemma_digit_round_trip(rgb.0 / 16);
    lemma_digit_round_trip(rgb.0 % 16);
    lemma_digit_round_trip(rgb.1 / 16);
    lemma_digit_round_trip(rgb.1 % 16);
    lemma_digit_round_trip(rgb.2 / 16);
    lemma_digit_round_trip(rgb.2 % 16);
}

/// Reading a hexadecimal digit that was written for a value gives the value
/// back.
pub proof fn lemma_digit_round_trip(value: int)
    requires
        0 <= value < 16,
    ensures
        hex_value(hex_digit(value)) == Some(value),
{
}

/// Formatting a color in hexadecimal form and reading the text back gives
/// the same color.
pub proof fn lemma_hex_round_trip(rgb: (int, int, int))
    requires
        0 <= rgb.0 < 256,
        0 <= rgb.1 < 256,
        0 <= rgb.2 < 256,
    ensures
        spec_parse_hex(spec_hex(rgb)) == Some(rgb),
{
    lemma_hex_has_seven_characters(rgb);
    lemma_digit_round_trip(rgb.0 / 16);
    lemma_digit_round_trip(rgb.0 % 16);
    lemma_digit_round_trip(rgb.1 / 16);
    lemma_digit_round_trip(rgb.1 % 16);
    lemma_digit_round_trip(rgb.2 / 16);
    lemma_digit_round_trip(rgb.2 % 16);
}

} // verus!

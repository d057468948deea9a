use vstd::prelude::*;
use crate::emoji::color::Color;

verus! {

/// Whether `c` is one of `0-9`, `a-f`, `A-F`.
pub open spec fn is_hex_digit(c: char) -> bool {
    ('0' <= c && c <= '9') || ('a' <= c && c <= 'f') || ('A' <= c && c <= 'F')
}

/// The value, 0 to 15, of a hexadecimal digit.
pub open spec fn hex_value(c: char) -> int {
    if '0' <= c && c <= '9' {
        c as int - '0' as int
    } else if 'a' <= c && c <= 'f' {
        c as int - 'a' as int + 10
    } else {
        c as int - 'A' as int + 10
    }
}

/// Whether every character is a hexadecimal digit.
pub open spec fn all_hex(digits: Seq<char>) -> bool {
    forall|i: int| 0 <= i < digits.len() ==> is_hex_digit(#[trigger] digits[i])
}

/// The text without one leading `#`, if it has one.
pub open spec fn strip_hash(text: Seq<char>) -> Seq<char> {
    if text.len() > 0 && text[0] == '#' {
        text.subrange(1, text.len() as int)
    } else {
        text
    }
}

/// The byte written by the two hexadecimal digits at `2 * index` and `2 * index + 1`.
pub open spec fn hex_pair(digits: Seq<char>, index: int) -> int {
    hex_value(digits[2 * index]) * 16 + hex_value(digits[2 * index + 1])
}

/// The colour written by six (`RRGGBB`, opaque) or eight (`RRGGBBAA`) hexadecimal digits.
pub open spec fn color_of_digits(digits: Seq<char>) -> Color {
    Color {
        a: if digits.len() == 8 {
            hex_pair(digits, 3) as u8
        } else {
            255u8
        },
        r: hex_pair(digits, 0) as u8,
        g: hex_pair(digits, 1) as u8,
        b: hex_pair(digits, 2) as u8,
    }
}

/// What a colour code means: after one optional leading `#`, six or eight
/// hexadecimal digits give a colour; a character that is no hexadecimal digit
/// is reported first, a wrong number of digits second, either with the code
/// as it was given.
pub open spec fn spec_parse_color_code(text: Seq<char>) -> Result<Color, Seq<char>> {
    let digits = strip_hash(text);
    if !all_hex(digits) {
        Err("Invalid color code: "@ + text)
    } else if digits.len() != 6 && digits.len() != 8 {
        Err("color code must be 6 or 8 digits (eg. #000000, #000000FF): "@ + text)
    } else {
        Ok(color_of_digits(digits))
    }
}

/// Two hexadecimal digits never write more than a byte.
pub proof fn lemma_hex_pair_is_byte(digits: Seq<char>, index: int)
    requires
        0 <= index,
        2 * index + 1 < digits.len(),
        all_hex(digits),
    ensures
        0 <= hex_pair(digits, index) <= 255,
{
    assert(is_hex_digit(digits[2 * index]));
    assert(is_hex_digit(digits[2 * index + 1]));
}

/// A colour code is accepted exactly when, after one optional leading `#`,
/// it is six or eight hexadecimal digits; and then it means the colour of
/// those digits.
pub proof fn lemma_color_code_accepted(text: Seq<char>)
    ensures
        spec_parse_color_code(text) is Ok <==> all_hex(strip_hash(text)) && (strip_hash(text).len()
            == 6 || strip_hash(text).len() == 8),
        spec_parse_color_code(text) is Ok ==> spec_parse_color_code(text)->Ok_0 == color_of_digits(
            strip_hash(text),
        ),
{
}

/// A colour code that is refused is reported with the code as it was given,
/// leading `#` included: the message ends with it.
pub proof fn lemma_color_code_error_names_input(text: Seq<char>)
    requires
        spec_parse_color_code(text) is Err,
    ensures
        ({
            let message = spec_parse_color_code(text)->Err_0;
            &&& message.len() >= text.len()
            &&& message.subrange(message.len() - text.len(), message.len() as int) == text
        }),
{
    let digits = strip_hash(text);
    let prefix = if !all_hex(digits) {
        "Invalid color code: "@
    } else {
        "color code must be 6 or 8 digits (eg. #000000, #000000FF): "@
    };
    let message = spec_parse_color_code(text)->Err_0;
    assert(message == prefix + text);
    assert(message.subrange(message.len() - text.len(), message.len() as int) =~= text);
}

/// A keyword that is refused is reported with the keyword as it was given:
/// the message ends with it.
pub proof fn lemma_keyword_error_names_input(text: Seq<char>)
    ensures
        spec_parse_text_align(text) matches Err(message) ==> message.len() >= text.len()
            && message.subrange(message.len() - text.len(), message.len() as int) == text,
        spec_parse_image_format(text) matches Err(message) ==> message.len() >= text.len()
            && message.subrange(message.len() - text.len(), message.len() as int) == text,
{
    let align = "Invalid text align: "@ + text;
    assert(align.subrange(align.len() - text.len(), align.len() as int) =~= text);
    let format = "Invalid image format: "@ + text;
    assert(format.subrange(format.len() - text.len(), format.len() as int) =~= text);
}

/// Six or eight hexadecimal digits mean the same colour with a leading `#` as
/// without; the channels are the bytes the digits write, red first; and six
/// digits mean what they mean with `FF` for the alpha behind them.
pub proof fn lemma_color_code_forms(digits: Seq<char>)
    requires
        all_hex(digits),
        digits.len() == 6 || digits.len() == 8,
    ensures
        spec_parse_color_code(digits) == Ok::<Color, Seq<char>>(color_of_digits(digits)),
        spec_parse_color_code(seq!['#'] + digits) == spec_parse_color_code(digits),
        color_of_digits(digits).r == hex_pair(digits, 0),
        color_of_digits(digits).g == hex_pair(digits, 1),
        color_of_digits(digits).b == hex_pair(digits, 2),
        digits.len() == 8 ==> color_of_digits(digits).a == hex_pair(digits, 3),
        digits.len() == 6 ==> color_of_digits(digits).a == 255,
        digits.len() == 6 ==> spec_parse_color_code(digits + seq!['F', 'F'])
            == spec_parse_color_code(digits),
{
    assert(is_hex_digit(digits[0]));
    assert(strip_hash(digits) == digits);
    assert(strip_hash(seq!['#'] + digits) =~= digits);
    lemma_hex_pair_is_byte(digits, 0);
    lemma_hex_pair_is_byte(digits, 1);
    lemma_hex_pair_is_byte(digits, 2);
    if digits.len() == 8 {
        lemma_hex_pair_is_byte(digits, 3);
    } else {
        let longer = digits + seq!['F', 'F'];
        assert forall|i: int| 0 <= i < longer.len() implies is_hex_digit(#[trigger] longer[i]) by {
            if i < 6 {
                assert(longer[i] == digits[i]);
            }
        }
        assert(is_hex_digit(longer[0]));
        assert(strip_hash(longer) == longer);
        assert(hex_pair(longer, 3) == 255);
        assert(hex_pair(longer, 0) == hex_pair(digits, 0));
        assert(hex_pair(longer, 1) == hex_pair(digits, 1));
        assert(hex_pair(longer, 2) == hex_pair(digits, 2));
    }
}

/// What an alignment keyword means.
pub open spec fn spec_parse_text_align(text: Seq<char>) -> Result<TextAlign, Seq<char>> {
    if text == "left"@ {
        Ok(TextAlign::Left)
    } else if text == "center"@ {
        Ok(TextAlign::Center)
    } else if text == "right"@ {
        Ok(TextAlign::Right)
    } else {
        Err("Invalid text align: "@ + text)
    }
}

/// What an image format keyword means: `png` and `jpeg` are the formats an
/// image can be asked for in; any other keyword is reported.
pub open spec fn spec_parse_image_format(text: Seq<char>) -> Result<ImageFormat, Seq<char>> {
    if text == "png"@ {
        Ok(ImageFormat::PNG)
    } else if text == "jpeg"@ {
        Ok(ImageFormat::JPEG)
    } else {
        Err("Invalid image format: "@ + text)
    }
}

/// Whether an executable result carries the value, or the message, of a specified one.
pub open spec fn result_matches<T>(got: Result<T, String>, expected: Result<T, Seq<char>>) -> bool {
    match (got, expected) {
        (Ok(value), Ok(wanted)) => value == wanted,
        (Err(message), Err(wanted)) => message@ == wanted,
        _ => false,
    }
}

/// Horizontal placement of a line inside its box.
#[derive(Clone, Copy, PartialEq, Eq, Structural, Debug)]
pub enum TextAlign {
    Left,
    Center,
    Right,
}

/// Encodings of images. Only `PNG` and `JPEG` can be asked for.
#[derive(Clone, Copy, PartialEq, Eq, Structural, Debug)]
pub enum ImageFormat {
    PNG,
    JPEG,
    WEBP,
    GIF,
}

/// The characters of a string, in order.
pub fn chars_of(text: &str) -> (chars: Vec<char>)
    ensures
        chars@ == text@,
{
    let mut chars: Vec<char> = Vec::new();
    for c in it: text.chars()
        invariant
            it.seq() == text@,
            chars@ == text@.take(it.index() as int),
    {
        assert(text@.take(it.index() + 1) == text@.take(it.index() as int).push(c));
        chars.push(c);
    }
    assert(text@.take(text@.len() as int) == text@);
    chars
}

fn hex_digit(c: char) -> (value: Option<u8>)
    ensures
        value is Some <==> is_hex_digit(c),
        value is Some ==> value->0 == hex_value(c) && value->0 < 16,
{
    if '0' <= c && c <= '9' {
        Some((c as u32 - '0' as u32) as u8)
    } else if 'a' <= c && c <= 'f' {
        Some((c as u32 - 'a' as u32 + 10) as u8)
    } else if 'A' <= c && c <= 'F' {
        Some((c as u32 - 'A' as u32 + 10) as u8)
    } else {
        None
    }
}

fn hex_byte(digits: &Vec<char>, start: usize, index: usize) -> (value: u8)
    requires
        index < 4,
        start + 2 * index + 1 < digits.len(),
        all_hex(digits@.subrange(start as int, digits.len() as int)),
    ensures
        value == hex_pair(digits@.subrange(start as int, digits.len() as int), index as int),
{
    let ghost tail = digits@.subrange(start as int, digits.len() as int);
    assert(is_hex_digit(tail[2 * index]));
    assert(is_hex_digit(tail[2 * index + 1]));
    let high = hex_digit(digits[start + 2 * index]);
    let low = hex_digit(digits[start + 2 * index + 1]);
    match (high, low) {
        (Some(h), Some(l)) => h * 16 + l,
        _ => 0,
    }
}

/// Parses `#RRGGBB`, `#RRGGBBAA`, or either without the `#`.
pub fn parse_color_code(f_color: String) -> (result: Result<Color, String>)
    ensures
        result_matches(result, spec_parse_color_code(f_color@)),
{
    let chars = chars_of(f_color.as_str());
    let start: usize = if chars.len() > 0 && chars[0] == '#' {
        1
    } else {
        0
    };
    let ghost digits = strip_hash(f_color@);
    assert(digits == chars@.subrange(start as int, chars.len() as int));

    let mut i: usize = start;
    while i < chars.len()
        invariant
            start <= i <= chars.len(),
            digits == strip_hash(f_color@),
            digits == chars@.subrange(start as int, chars.len() as int),
            all_hex(digits.take(i - start)),
        decreases chars.len() - i,
    {
        if hex_digit(chars[i]).is_none() {
            assert(!is_hex_digit(digits[i - start]));
            let mut message = String::from_str("Invalid color code: ");
            message.append(f_color.as_str());
            return Err(message);
        }
        assert(digits.take(i + 1 - start) == digits.take(i - start).push(chars@[i as int]));
        i += 1;
    }
    assert(digits.take(digits.len() as int) == digits);

    let count = chars.len() - start;
    if count != 6 && count != 8 {
        let mut message = String::from_str(
            "color code must be 6 or 8 digits (eg. #000000, #000000FF): ",
        );
        message.append(f_color.as_str());
        return Err(message);
    }
    let r = hex_byte(&chars, start, 0);
    let g = hex_byte(&chars, start, 1);
    let b = hex_byte(&chars, start, 2);
    let a = if count == 8 {
        hex_byte(&chars, start, 3)
    } else {
        255
    };
    Ok(Color::from_argb(a, r, g, b))
}

fn text_is(text: &String, keyword: &str) -> (same: bool)
    ensures
        same == (text@ == keyword@),
{
    *text == String::from_str(keyword)
}

fn with_input(prefix: &str, input: &String) -> (message: String)
    ensures
        message@ == prefix@ + input@,
{
    let mut message = String::from_str(prefix);
    message.append(input.as_str());
    message
}

/// Parses `left`, `center` or `right`.
pub fn parse_text_align(text_align: String) -> (result: Result<TextAlign, String>)
    ensures
        result_matches(result, spec_parse_text_align(text_align@)),
{
    if text_is(&text_align, "left") {
        Ok(TextAlign::Left)
    } else if text_is(&text_align, "center") {
        Ok(TextAlign::Center)
    } else if text_is(&text_align, "right") {
        Ok(TextAlign::Right)
    } else {
        Err(with_input("Invalid text align: ", &text_align))
    }
}

/// Parses `png` or `jpeg`.
pub fn parse_image_format(format: String) -> (result: Result<ImageFormat, String>)
    ensures
        result_matches(result, spec_parse_image_format(format@)),
{
    if text_is(&format, "png") {
        Ok(ImageFormat::PNG)
    } else if text_is(&format, "jpeg") {
        Ok(ImageFormat::JPEG)
    } else {
        Err(with_input("Invalid image format: ", &format))
    }
}

} // verus!

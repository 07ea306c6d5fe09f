//! Card colors.
//!
//! A profile's card is colored by the profile's own color, or by a hue that its
//! name gives.

use vstd::prelude::*;
use vstd::string::*;

use crate::profile::{LauncherProfile, ProfileColorMode};
use crate::text;
use crate::text::{chars_of, strip_prefix, to_ascii_upper, trim_text};

verus! {

/// Whether a character is a hexadecimal digit.
pub open spec fn is_hex_digit(c: char) -> bool {
    '0' <= c <= '9' || 'a' <= c <= 'f' || 'A' <= c <= 'F'
}

/// The number that a hexadecimal digit stands for.
pub open spec fn hex_digit_value(c: char) -> int {
    if '0' <= c <= '9' {
        c as int - '0' as int
    } else if 'a' <= c <= 'f' {
        c as int - 'a' as int + 10
    } else {
        c as int - 'A' as int + 10
    }
}

/// Whether a text is six hexadecimal digits.
pub open spec fn is_hex_color(digits: Seq<char>) -> bool {
    digits.len() == 6 && forall|i: int| 0 <= i < 6 ==> is_hex_digit(#[trigger] digits[i])
}

/// The digits of a color: the text without outer white space and without at most
/// one leading `#`.
pub open spec fn color_digits(input: Seq<char>) -> Seq<char> {
    match text::after_prefix(text::trim(input), "#"@) {
        Some(digits) => digits,
        None => text::trim(input),
    }
}

/// A color as `#` and six upper-case digits.
pub open spec fn normalized_color(input: Seq<char>) -> Option<Seq<char>> {
    if is_hex_color(color_digits(input)) {
        Some("#"@ + text::ascii_upper(color_digits(input)))
    } else {
        None
    }
}

/// The number that two hexadecimal digits stand for.
pub open spec fn hex_byte(digits: Seq<char>, at: int) -> u8 {
    (hex_digit_value(digits[at]) * 16 + hex_digit_value(digits[at + 1])) as u8
}

/// Red, green and blue of a color.
pub open spec fn color_rgb(input: Seq<char>) -> Option<(u8, u8, u8)> {
    let digits = color_digits(input);
    if is_hex_color(digits) {
        Some((hex_byte(digits, 0), hex_byte(digits, 2), hex_byte(digits, 4)))
    } else {
        None
    }
}

fn digits_of_color(input: &str) -> (r: Option<Vec<char>>)
    ensures
        match r {
            Some(digits) => digits@ == color_digits(input@) && is_hex_color(digits@),
            None => !is_hex_color(color_digits(input@)),
        },
{
    let trimmed = trim_text(input);
    let digits = match strip_prefix(trimmed.as_str(), "#") {
        Some(rest) => chars_of(rest.as_str()),
        None => chars_of(trimmed.as_str()),
    };
    if digits.len() != 6 {
        return None;
    }
    let mut i: usize = 0;
    while i < 6
        invariant
            i <= 6,
            digits@ == color_digits(input@),
            digits@.len() == 6,
            forall|j: int| 0 <= j < i ==> is_hex_digit(#[trigger] digits@[j]),
        decreases 6 - i,
    {
        let c = digits[i];
        if !(('0' <= c && c <= '9') || ('a' <= c && c <= 'f') || ('A' <= c && c <= 'F')) {
            assert(!is_hex_digit(digits@[i as int]));
            return None;
        }
        i = i + 1;
    }
    Some(digits)
}

/// The color as `#` and six upper-case digits, if the text is a color.
pub fn normalize_hex_color(input: &str) -> (r: Option<String>)
    ensures
        text::opt_text(r) == normalized_color(input@),
{
    match digits_of_color(input) {
        Some(digits) => {
            let plain = text::text_of(&digits);
            let upper = to_ascii_upper(plain.as_str());
            let mut color = "#".to_owned();
            color.append(upper.as_str());
            Some(color)
        },
        None => None,
    }
}

fn digit_value(c: char) -> (r: u8)
    requires
        is_hex_digit(c),
    ensures
        r == hex_digit_value(c),
        r < 16,
{
    if '0' <= c && c <= '9' {
        c as u8 - 48u8
    } else if 'a' <= c && c <= 'f' {
        c as u8 - 87u8
    } else {
        c as u8 - 55u8
    }
}

/// Red, green and blue of the color, if the text is a color.
pub fn hex_to_rgb(hex: &str) -> (r: Option<(u8, u8, u8)>)
    ensures
        r == color_rgb(hex@),
{
    match digits_of_color(hex) {
        Some(d) => {
            assert(is_hex_digit(d@[0]) && is_hex_digit(d@[1]) && is_hex_digit(d@[2]));
            assert(is_hex_digit(d@[3]) && is_hex_digit(d@[4]) && is_hex_digit(d@[5]));
            let red: u8 = digit_value(d[0]) * 16 + digit_value(d[1]);
            let green: u8 = digit_value(d[2]) * 16 + digit_value(d[3]);
            let blue: u8 = digit_value(d[4]) * 16 + digit_value(d[5]);
            Some((red, green, blue))
        },
        None => None,
    }
}

/// A hash of bytes: thirty-one times the hash of all but the last, and the last,
/// modulo two to the thirty-second.
pub open spec fn byte_hash(bytes: Seq<u8>) -> u32
    decreases bytes.len(),
{
    if bytes.len() == 0 {
        0
    } else {
        ((byte_hash(bytes.drop_last()) * 31 + bytes.last()) % 0x1_0000_0000) as u32
    }
}

/// The hue, in degrees, that a name gives.
pub open spec fn name_hue(name: Seq<char>) -> u32 {
    byte_hash(vstd::utf8::encode_utf8(name)) % 360
}

/// The hue, in degrees, that the name gives.
pub fn automatic_hue(name: &str) -> (r: u32)
    ensures
        r == name_hue(name@),
        r < 360,
{
    let bytes = name.as_bytes();
    let mut hash: u32 = 0;
    let mut i: usize = 0;
    while i < bytes.len()
        invariant
            bytes@ == vstd::utf8::encode_utf8(name@),
            i <= bytes@.len(),
            hash == byte_hash(bytes@.take(i as int)),
        decreases bytes@.len() - i,
    {
        assert(bytes@.take(i + 1).drop_last() =~= bytes@.take(i as int));
        let ghost previous = hash;
        hash = hash.wrapping_mul(31).wrapping_add(bytes[i] as u32);
        i = i + 1;
        assert(hash == (previous * 31 + bytes@[i - 1]) % 0x1_0000_0000);
    }
    assert(bytes@.take(bytes@.len() as int) =~= bytes@);
    hash % 360
}

/// What a card is colored by.
#[derive(Debug, Clone, Copy, PartialEq, Eq, Structural)]
pub enum CardColor {
    /// Red, green and blue.
    Rgb(u8, u8, u8),
    /// A hue in degrees.
    Hue(u32),
}

/// What a profile's card is colored by.
pub fn card_color(profile: &LauncherProfile) -> (r: CardColor)
    ensures
        r == match (profile.color_mode, profile.color_hex) {
            (ProfileColorMode::Custom, Some(hex)) => match color_rgb(hex@) {
                Some((red, green, blue)) => CardColor::Rgb(red, green, blue),
                None => CardColor::Hue(name_hue(profile.name@)),
            },
            _ => CardColor::Hue(name_hue(profile.name@)),
        },
{
    if profile.color_mode == ProfileColorMode::Custom {
        if let Some(hex) = &profile.color_hex {
            if let Some((red, green, blue)) = hex_to_rgb(hex.as_str()) {
                return CardColor::Rgb(red, green, blue);
            }
        }
    }
    CardColor::Hue(automatic_hue(profile.name.as_str()))
}

/// A color that is brought into its form stays in it, and is the same color.
pub proof fn law_normalizing_keeps_the_color(input: Seq<char>)
    ensures
        normalized_color(input) matches Some(hex) ==> normalized_color(hex) == Some(hex)
            && color_rgb(hex) == color_rgb(input),
{
    if let Some(hex) = normalized_color(input) {
        reveal_strlit("#");
        let digits = color_digits(input);
        let upper = text::ascii_upper(digits);
        assert(hex.len() == 7);
        assert(hex[0] == '#');
        assert(!text::is_space(hex[0]));
        assert(hex.last() == upper[5]);
        assert(is_hex_digit(digits[5]));
        assert(!text::is_space(hex.last()));
        assert(text::trim(hex) == hex);
        assert(hex.take(1) =~= "#"@);
        assert(hex.skip(1) =~= upper);
        assert(color_digits(hex) == upper);
        assert forall|i: int| 0 <= i < 6 implies is_hex_digit(#[trigger] upper[i])
            && hex_digit_value(upper[i]) == hex_digit_value(digits[i]) && text::ascii_upper_char(
            upper[i],
        ) == upper[i] by {
            assert(is_hex_digit(digits[i]));
            assert(upper[i] == text::ascii_upper_char(digits[i]));
        }
        assert(text::ascii_upper(upper) =~= upper);
        assert(upper[0] == upper[0] && upper[1] == upper[1] && upper[2] == upper[2]);
        assert(upper[3] == upper[3] && upper[4] == upper[4] && upper[5] == upper[5]);
    }
}

proof fn lemma_no_digit_is_space(digits: Seq<char>)
    requires
        is_hex_color(digits),
    ensures
        !text::is_space(digits[0]),
        !text::is_space(digits[5]),
        digits[0] != '#',
{
    assert(is_hex_digit(digits[0]) && is_hex_digit(digits[5]));
    text::law_ascii_white_space(digits[0]);
    text::law_ascii_white_space(digits[5]);
}

/// How a color is written: as six hexadecimal digits, with a `#` in front or without
/// one, and with white space around it. It is brought into the form `#` and six
/// upper-case digits.
pub proof fn law_color_may_have_a_sign(front: Seq<char>, digits: Seq<char>, back: Seq<char>)
    requires
        text::all_space(front),
        text::all_space(back),
        digits.len() == 6,
        forall|i: int|
            0 <= i < 6 ==> '0' <= #[trigger] digits[i] <= '9' || 'a' <= digits[i] <= 'f' || 'A'
                <= digits[i] <= 'F',
    ensures
        normalized_color(front + digits + back) == Some(seq!['#'] + text::ascii_upper(digits)),
        normalized_color(front + seq!['#'] + digits + back) == normalized_color(
            front + digits + back,
        ),
        color_rgb(front + seq!['#'] + digits + back) == color_rgb(digits),
        color_rgb(front + digits + back) == color_rgb(digits),
        color_rgb(digits) is Some,
{
    reveal_strlit("#");
    assert("#"@ =~= seq!['#']);
    assert(is_hex_color(digits));
    lemma_no_digit_is_space(digits);
    text::law_trim_takes_only_outer_space(front, digits, back);
    text::law_trim_takes_only_outer_space(Seq::empty(), digits, Seq::empty());
    assert(Seq::<char>::empty() + digits + Seq::<char>::empty() =~= digits);
    let signed = seq!['#'] + digits;
    text::law_ascii_white_space('#');
    assert(signed.last() == digits[5]);
    text::law_trim_takes_only_outer_space(front, signed, back);
    assert(front + signed + back =~= front + seq!['#'] + digits + back);
    assert(signed.take(1) =~= "#"@);
    assert(signed.skip(1) =~= digits);
    assert(digits.take(1)[0] == digits[0]);
}

/// Nothing else is a color: what is brought into the form is, but for outer white
/// space and the sign, six hexadecimal digits.
pub proof fn law_only_six_digits_are_a_color(input: Seq<char>)
    ensures
        normalized_color(input) is Some <==> color_rgb(input) is Some,
        normalized_color(input) is Some ==> {
            let core = text::trim(input);
            let digits = if core.len() == 7 {
                core.skip(1)
            } else {
                core
            };
            &&& core.len() == 6 || (core.len() == 7 && core[0] == '#')
            &&& forall|i: int|
                0 <= i < 6 ==> '0' <= #[trigger] digits[i] <= '9' || 'a' <= digits[i] <= 'f' || 'A'
                    <= digits[i] <= 'F'
        },
{
    reveal_strlit("#");
    if normalized_color(input) is Some {
        let core = text::trim(input);
        let digits = color_digits(input);
        if text::opens_with(core, "#"@) {
            assert(core.take(1)[0] == core[0]);
            assert(core.skip(1).len() == 6);
        }
        let shown = if core.len() == 7 {
            core.skip(1)
        } else {
            core
        };
        assert(shown == digits);
        assert forall|i: int| 0 <= i < 6 implies '0' <= #[trigger] shown[i] <= '9' || 'a'
            <= shown[i] <= 'f' || 'A' <= shown[i] <= 'F' by {
            assert(is_hex_digit(digits[i]));
        }
    }
}

/// Red, green and blue are the numbers of two digits each, in this order.
pub proof fn law_two_digits_for_each_part(digits: Seq<char>)
    requires
        digits.len() == 6,
        forall|i: int|
            0 <= i < 6 ==> '0' <= #[trigger] digits[i] <= '9' || 'a' <= digits[i] <= 'f' || 'A'
                <= digits[i] <= 'F',
    ensures
        color_rgb(digits) matches Some((red, green, blue)) && red == 16 * hex_digit_value(digits[0])
            + hex_digit_value(digits[1]) && green == 16 * hex_digit_value(digits[2])
            + hex_digit_value(digits[3]) && blue == 16 * hex_digit_value(digits[4])
            + hex_digit_value(digits[5]),
        forall|i: int|
            0 <= i < 6 ==> (#[trigger] digits[i] <= '9' ==> hex_digit_value(digits[i])
                == digits[i] as int - 48) && ('A' <= digits[i] <= 'F' ==> hex_digit_value(digits[i])
                == digits[i] as int - 55) && ('a' <= digits[i] ==> hex_digit_value(digits[i])
                == digits[i] as int - 87),
{
    assert(Seq::<char>::empty() + digits + Seq::<char>::empty() =~= digits);
    law_color_may_have_a_sign(Seq::empty(), digits, Seq::empty());
    assert(is_hex_color(digits));
    lemma_no_digit_is_space(digits);
    reveal_strlit("#");
    text::law_trim_takes_only_outer_space(Seq::empty(), digits, Seq::empty());
    assert(digits.take(1)[0] == digits[0]);
    assert(color_digits(digits) == digits);
    assert(is_hex_digit(digits[0]) && is_hex_digit(digits[1]) && is_hex_digit(digits[2]));
    assert(is_hex_digit(digits[3]) && is_hex_digit(digits[4]) && is_hex_digit(digits[5]));
}

/// The hue of a name: one more byte makes the hash thirty-one times what it was and the
/// byte more, in thirty-two bits; the hue is what is left of the hash by the circle.
pub proof fn law_hue_depends_on_every_byte(bytes: Seq<u8>, byte: u8, name: Seq<char>)
    ensures
        byte_hash(Seq::empty()) == 0,
        byte_hash(bytes.push(byte)) == (byte_hash(bytes) * 31 + byte) % 0x1_0000_0000,
        name_hue(name) < 360,
        exists|turns: int|
            byte_hash(vstd::utf8::encode_utf8(name)) == #[trigger] (turns * 360) + name_hue(name),
{
    assert(bytes.push(byte).drop_last() =~= bytes);
    let hash = byte_hash(vstd::utf8::encode_utf8(name));
    assert(hash == (hash as int / 360) * 360 + name_hue(name));
}

} // verus!

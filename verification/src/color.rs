//! Parsing the colour picker's `#rrggbb` value into its three channel bytes.
use vstd::prelude::*;
use vstd::string::StringSliceAdditionalSpecFns;

verus! {

/// The value of an ASCII hexadecimal digit (either case).
pub open spec fn hex_digit_value(b: u8) -> Option<u8> {
    if 48 <= b <= 57 {
        Some((b - 48) as u8)
    } else if 97 <= b <= 102 {
        Some((b - 87) as u8)
    } else if 65 <= b <= 70 {
        Some((b - 55) as u8)
    } else {
        None
    }
}

/// Base-16 parse of the two-byte text `[a, b]` as a `u8`, as
/// `u8::from_str_radix(_, 16)` does: either two hex digits, or a `+` sign
/// followed by one.
pub open spec fn parse_hex_pair(a: u8, b: u8) -> Option<u8> {
    if a == 43 {
        hex_digit_value(b)
    } else {
        match (hex_digit_value(a), hex_digit_value(b)) {
            (Some(high), Some(low)) => Some((high * 16 + low) as u8),
            _ => None,
        }
    }
}

/// The channel whose two hex digits start at byte `start` of `text`; `None`
/// when the text is too short or those bytes are not a channel.
pub open spec fn channel_at(text: Seq<u8>, start: int) -> Option<u8> {
    if 0 <= start && start + 2 <= text.len() {
        parse_hex_pair(text[start], text[start + 1])
    } else {
        None
    }
}

/// The channel at `start`, or zero where there is none.
pub open spec fn channel_or_zero(text: Seq<u8>, start: int) -> u8 {
    match channel_at(text, start) {
        Some(value) => value,
        None => 0,
    }
}

/// The lowercase hex digit of `n < 16`, as a byte.
pub open spec fn lower_hex_digit(n: u8) -> u8 {
    if n < 10 {
        (48 + n) as u8
    } else {
        (87 + n) as u8
    }
}

/// The text `#rrggbb` in lowercase hex, as a colour input reports a colour.
pub open spec fn color_text(red: u8, green: u8, blue: u8) -> Seq<u8> {
    seq![
        35u8,
        lower_hex_digit(red / 16),
        lower_hex_digit(red % 16),
        lower_hex_digit(green / 16),
        lower_hex_digit(green % 16),
        lower_hex_digit(blue / 16),
        lower_hex_digit(blue % 16),
    ]
}

fn hex_digit(b: u8) -> (value: Option<u8>)
    ensures
        value == hex_digit_value(b),
{
    if 48 <= b && b <= 57 {
        Some(b - 48)
    } else if 97 <= b && b <= 102 {
        Some(b - 87)
    } else if 65 <= b && b <= 70 {
        Some(b - 55)
    } else {
        None
    }
}

/// The channel whose two hex digits start at byte `start` of `hex`.
pub fn hex_channel(hex: &str, start: usize) -> (channel: Option<u8>)
    ensures
        channel == channel_at(hex.spec_bytes(), start as int),
{
    let bytes = hex.as_bytes();
    if start > bytes.len() || bytes.len() - start < 2 {
        return None;
    }
    let a = bytes[start];
    let b = bytes[start + 1];
    if a == 43 {
        hex_digit(b)
    } else {
        match (hex_digit(a), hex_digit(b)) {
            (Some(high), Some(low)) => Some(high * 16 + low),
            _ => None,
        }
    }
}

/// The red, green and blue bytes of a `#rrggbb` colour value; a channel that
/// is missing or malformed reads as zero.
pub fn hex_to_rgb(hex: &str) -> (rgb: (u8, u8, u8))
    ensures
        rgb == (
            channel_or_zero(hex.spec_bytes(), 1),
            channel_or_zero(hex.spec_bytes(), 3),
            channel_or_zero(hex.spec_bytes(), 5),
        ),
{
    let red = match hex_channel(hex, 1) {
        Some(value) => value,
        None => 0,
    };
    let green = match hex_channel(hex, 3) {
        Some(value) => value,
        None => 0,
    };
    let blue = match hex_channel(hex, 5) {
        Some(value) => value,
        None => 0,
    };
    (red, green, blue)
}

proof fn lemma_lower_digit_reads_back(n: u8)
    requires
        n < 16,
    ensures
        hex_digit_value(lower_hex_digit(n)) == Some(n),
{
}

proof fn lemma_byte_reads_back(value: u8)
    ensures
        parse_hex_pair(lower_hex_digit(value / 16), lower_hex_digit(value % 16)) == Some(value),
{
    lemma_lower_digit_reads_back(value / 16);
    lemma_lower_digit_reads_back(value % 16);
    assert(lower_hex_digit(value / 16) != 43u8);
}

/// Parsing reads back any colour written as `#rrggbb`: every channel comes
/// out as written.
pub proof fn lemma_color_round_trip(red: u8, green: u8, blue: u8)
    ensures
        channel_at(color_text(red, green, blue), 1) == Some(red),
        channel_at(color_text(red, green, blue), 3) == Some(green),
        channel_at(color_text(red, green, blue), 5) == Some(blue),
{
    lemma_byte_reads_back(red);
    lemma_byte_reads_back(green);
    lemma_byte_reads_back(blue);
}

} // verus!

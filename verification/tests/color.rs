use nightshade_worker_leptos::color::{hex_channel, hex_to_rgb};

#[test]
fn default_swatch_parses() {
    assert_eq!(hex_to_rgb("#4d80e6"), (0x4d, 0x80, 0xe6));
    let (red, green, blue) = hex_to_rgb("#4d80e6");
    let floats = (red as f32 / 255.0, green as f32 / 255.0, blue as f32 / 255.0);
    assert!((floats.0 - 0.3019608).abs() < 1e-6);
    assert!((floats.1 - 0.5019608).abs() < 1e-6);
    assert!((floats.2 - 0.9019608).abs() < 1e-6);
}

#[test]
fn both_cases_and_extremes() {
    assert_eq!(hex_to_rgb("#FFffFF"), (255, 255, 255));
    assert_eq!(hex_to_rgb("#000000"), (0, 0, 0));
    assert_eq!(hex_to_rgb("#0A0b0C"), (10, 11, 12));
}

#[test]
fn malformed_channels_read_as_zero() {
    assert_eq!(hex_to_rgb(""), (0, 0, 0));
    assert_eq!(hex_to_rgb("#12"), (0x12, 0, 0));
    assert_eq!(hex_to_rgb("#12345"), (0x12, 0x34, 0));
    assert_eq!(hex_to_rgb("#zz3456"), (0, 0x34, 0x56));
    assert_eq!(hex_to_rgb("#-1-1-1"), (0, 0, 0));
}

#[test]
fn plus_sign_is_accepted_like_from_str_radix() {
    assert_eq!(hex_channel("#+f0000", 1), Some(15));
    assert_eq!(u8::from_str_radix("+f", 16).ok(), Some(15));
    assert_eq!(hex_channel("#++0000", 1), None);
    assert_eq!(hex_channel("#f", 1), None);
}

#[test]
fn channel_matches_from_str_radix_on_every_pair() {
    let alphabet = "0123456789abcdefABCDEF+-g ";
    for a in alphabet.chars() {
        for b in alphabet.chars() {
            let text = format!("#{a}{b}");
            assert_eq!(
                hex_channel(&text, 1),
                u8::from_str_radix(&text[1..3], 16).ok(),
                "{text}"
            );
        }
    }
}

#[test]
fn round_trip_of_formatted_colors() {
    for (red, green, blue) in [(0u8, 1u8, 2u8), (255, 128, 16), (77, 128, 230)] {
        let text = format!("#{red:02x}{green:02x}{blue:02x}");
        assert_eq!(hex_to_rgb(&text), (red, green, blue));
    }
}

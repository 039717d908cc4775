use cogent_core::colors::Color;

#[test]
fn test_from_hex_named_color() {
    let c = Color::from_hex("#4285F4");
    assert_eq!(c, Some(Color::rgba(66, 133, 244, 255)));
}

#[test]
fn test_from_hex_rejects_non_hex_digits() {
    assert_eq!(Color::from_hex("zz0000"), None);
}

#[test]
fn test_from_hex_without_leading_hash() {
    assert_eq!(Color::from_hex("FF0000"), Some(Color::rgb(255, 0, 0)));
}

#[test]
fn test_from_hex_eight_digits_sets_alpha() {
    assert_eq!(Color::from_hex("#01020304"), Some(Color::rgba(1, 2, 3, 4)));
}

#[test]
fn test_from_hex_lowercase_digits() {
    assert_eq!(Color::from_hex("#ff00aa"), Some(Color::rgba(255, 0, 170, 255)));
}

#[test]
fn test_from_hex_wrong_length_is_rejected() {
    assert_eq!(Color::from_hex(""), None);
    assert_eq!(Color::from_hex("#"), None);
    assert_eq!(Color::from_hex("#12345"), None);
    assert_eq!(Color::from_hex("#1234567"), None);
    assert_eq!(Color::from_hex("#123456789"), None);
}

#[test]
fn test_from_hex_rejects_second_hash() {
    // Only one leading '#' is optional; a second makes the string malformed.
    assert_eq!(Color::from_hex("##FF0000"), None);
    assert_eq!(Color::from_hex("##FF00"), None);
}

#[test]
fn test_from_hex_rejects_sign_characters() {
    // A leading sign is not a hex digit, even where a lenient number parser
    // might take it.
    assert_eq!(Color::from_hex("+10000FF"), None);
    assert_eq!(Color::from_hex("#-1000000"), None);
}

#[test]
fn test_to_hex_opaque_omits_alpha() {
    assert_eq!(Color::rgb(66, 133, 244).to_hex(), "#4285F4");
}

#[test]
fn test_to_hex_translucent_appends_alpha() {
    assert_eq!(Color::rgba(1, 2, 3, 4).to_hex(), "#01020304");
}

#[test]
fn test_hex_round_trip_from_string() {
    // Parsing then formatting differs only in letter case.
    let c = Color::from_hex("#ab12cd").unwrap();
    assert_eq!(c.to_hex(), "#AB12CD");
    let c = Color::from_hex("#ab12cd80").unwrap();
    assert_eq!(c.to_hex(), "#AB12CD80");
}

#[test]
fn test_hex_round_trip_from_color() {
    // Formatting then parsing reproduces the exact RGBA components.
    let colors = [
        Color::rgba(0, 0, 0, 255),
        Color::rgba(255, 255, 255, 255),
        Color::rgba(66, 133, 244, 255),
        Color::rgba(1, 2, 3, 4),
        Color::rgba(0, 0, 0, 0),
    ];
    for c in colors {
        assert_eq!(Color::from_hex(c.to_hex().as_str()), Some(c));
    }
}

#[test]
fn test_as_u32_packs_rgba() {
    assert_eq!(Color::rgba(0x12, 0x34, 0x56, 0x78).as_u32(), 0x12345678);
    assert_eq!(Color::rgb(255, 0, 0).as_u32(), 0xFF0000FF);
}

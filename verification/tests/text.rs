use tajagi::text::{char_is_white_space, has_prefix, is_blank_str, str_eq, trim_str};

#[test]
fn trim_matches_std_on_unicode_whitespace() {
    let samples = [
        "",
        "   ",
        "  a b  ",
        "\u{00A0}x\u{3000}",
        "\u{2028}\u{205F}mid dle\u{0085}\t",
        "한\n글",
        "no-trim",
        "\u{200B}zero-width is not white space\u{200B}",
    ];
    for s in samples {
        assert_eq!(trim_str(s), s.trim());
        assert_eq!(is_blank_str(s), s.trim().is_empty());
    }
}

#[test]
fn white_space_matches_std_for_all_chars() {
    for u in 0u32..=0x10FFFF {
        if let Some(c) = char::from_u32(u) {
            assert_eq!(char_is_white_space(c), c.is_whitespace(), "U+{:04X}", u);
        }
    }
}

#[test]
fn prefix_and_equality() {
    assert!(has_prefix("apple-intelligence://x", "apple-intelligence://"));
    assert!(!has_prefix("apple", "apple-intelligence://"));
    assert!(has_prefix("anything", ""));
    assert!(str_eq("한글", "한글"));
    assert!(!str_eq("a", "b"));
}

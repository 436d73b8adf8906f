use glcim::branch::{remote_branch, trim_text};

#[test]
fn white_space_is_trimmed() {
    for text in [
        "", " ", "\n", "main", "main\n", "\t feature/x \r\n", " a b ", "\u{a0}é\u{3000}",
        "\u{200b}a\u{200b}", "\u{85}a\u{2028}", "\u{1680}\u{2000}b\u{200a}\u{202f}\u{205f}",
        "\u{b}\u{c}a\u{1c}",
    ] {
        assert_eq!(trim_text(text), text.trim());
    }
}

#[test]
fn white_space_is_what_std_says() {
    for u in 0..0x11_0000u32 {
        if let Some(c) = char::from_u32(u) {
            let text = c.to_string();
            assert_eq!(trim_text(&text).is_empty(), c.is_whitespace());
        }
    }
}

#[test]
fn branch_from_the_output_of_a_command() {
    assert_eq!(remote_branch(b"feature/x\n"), "feature/x");
    assert_eq!(remote_branch("větev\n".as_bytes()), "větev");
    assert_eq!(remote_branch(b""), "");
    assert_eq!(remote_branch(b"a\xffb\n"), "a\u{fffd}b");
}

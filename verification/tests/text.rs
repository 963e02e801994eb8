use sysbanner::text::{blank, is_space, trim, trim_trailing};

#[test]
fn is_space_agrees_with_the_standard_library_on_every_character() {
    let mut count = 0;
    for code in 0..=0x10FFFFu32 {
        if let Some(c) = char::from_u32(code) {
            assert_eq!(is_space(c), c.is_whitespace(), "U+{:04X}", code);
            if is_space(c) {
                count += 1;
            }
        }
    }
    assert_eq!(count, 25);
}

#[test]
fn trim_removes_white_space_on_both_sides() {
    assert_eq!(trim("6.8.0-generic\n"), "6.8.0-generic");
    assert_eq!(trim("X570 AORUS\n"), "X570 AORUS");
    assert_eq!(trim("  \t a b \r\n"), "a b");
    assert_eq!(trim("abc"), "abc");
    assert_eq!(trim(""), "");
    assert_eq!(trim(" \n\t "), "");
    assert_eq!(trim("\u{3000}\u{2003}x\u{a0}y\u{85}\u{2028}"), "x\u{a0}y");
    assert_eq!(trim("\u{200b}x\u{200b}"), "\u{200b}x\u{200b}");
}

#[test]
fn trim_agrees_with_the_standard_library() {
    let samples = [
        "", " ", "a", " a", "a ", " a ", "\n\na\tb\n\n", "\u{1680}a\u{1680}", "\u{feff}a",
        "  \u{4e16}\u{754c}  ", "\r\n", "a\u{0}", "\u{1c}a\u{1f}", "\u{b}\u{c}a\u{b}\u{c}",
    ];
    for s in samples {
        assert_eq!(trim(s), s.trim());
        assert_eq!(trim_trailing(s), s.trim_end());
    }
}

#[test]
fn trim_trailing_keeps_the_front() {
    assert_eq!(trim_trailing("alice\n"), "alice");
    assert_eq!(trim_trailing("  alice \n "), "  alice");
    assert_eq!(trim_trailing("\n"), "");
    assert_eq!(trim_trailing(""), "");
}

#[test]
fn blank_is_a_run_of_spaces() {
    assert_eq!(blank(0), "");
    assert_eq!(blank(1), " ");
    assert_eq!(blank(7), "       ");
    assert_eq!(blank(300).len(), 300);
    assert!(blank(300).chars().all(|c| c == ' '));
}

use core_agent::text::{chars_of, contains, remove_all_of, same_text, string_from_chars, trimmed, white_space};

fn s(v: Vec<char>) -> String {
    v.into_iter().collect()
}

#[test]
fn substring_search() {
    let t = chars_of("héllo wörld");
    assert!(contains(&t, "wör"));
    assert!(contains(&t, ""));
    assert!(!contains(&t, "world"));
    assert!(!contains(&chars_of("ab"), "abc"));
}

#[test]
fn removal_is_left_to_right_without_overlap() {
    assert_eq!(s(remove_all_of(&chars_of("aaa"), "aa")), "a");
    assert_eq!(s(remove_all_of(&chars_of("type type it"), "type")), "  it");
    assert_eq!(s(remove_all_of(&chars_of("ttypeype"), "type")), "type");
}

#[test]
fn trimming_unicode_white_space() {
    assert_eq!(s(trimmed(&chars_of("\u{3000} a b \t\n"))), "a b");
    assert_eq!(s(trimmed(&chars_of("   "))), "");
    assert!(white_space('\u{85}'));
    assert!(!white_space('\u{200B}'));
    for c in ['\u{9}', ' ', '\u{a0}', '\u{1680}', '\u{2000}', '\u{2028}', '\u{205f}', 'x', '\u{180e}'] {
        assert_eq!(white_space(c), c.is_whitespace());
    }
}

#[test]
fn text_helpers() {
    assert!(same_text("a", "a"));
    assert!(!same_text("a", "A"));
    assert_eq!(string_from_chars(&['o', 'k']), "ok");
}

#[test]
fn white_space_matches_std_for_all_chars() {
    for u in 0u32..=0x10FFFF {
        if let Some(c) = char::from_u32(u) {
            assert_eq!(white_space(c), c.is_whitespace(), "U+{u:04X}");
        }
    }
}

#[test]
fn trimming_matches_std() {
    for s in ["", " ", "a", " a ", "\u{2003}x y\u{205f}", "\t\r\n", "é  "] {
        let t: String = trimmed(&chars_of(s)).into_iter().collect();
        assert_eq!(t, s.trim());
    }
}

#[test]
fn removal_matches_std() {
    for (s, p) in [("aaaa", "aa"), ("abcabc", "bc"), ("typewriter type", "type"), ("x", "xyz"), ("ééé", "é")] {
        let r: String = remove_all_of(&chars_of(s), p).into_iter().collect();
        assert_eq!(r, s.replace(p, ""));
    }
}

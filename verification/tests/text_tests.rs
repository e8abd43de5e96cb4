use sshnetcomp::text::{bool_text, copy_texts, is_white_space_char, same_text, trim_end};

#[test]
fn white_space_matches_std() {
    for code in 0u32..0x3100 {
        if let Some(c) = char::from_u32(code) {
            assert_eq!(is_white_space_char(c), c.is_whitespace(), "char {:#x}", code);
        }
    }
    for c in ['\u{feff}', '\u{200b}', '\u{10ffff}', 'a'] {
        assert_eq!(is_white_space_char(c), c.is_whitespace());
    }
}

#[test]
fn trim_end_removes_trailing_white_space() {
    assert_eq!(trim_end("abc \r\n"), "abc");
    assert_eq!(trim_end("  lead stays\t"), "  lead stays");
    assert_eq!(trim_end("\u{3000}x \u{a0}\u{2028}"), "\u{3000}x");
    assert_eq!(trim_end(""), "");
    assert_eq!(trim_end(" \n\t"), "");
    assert_eq!(trim_end("no change"), "no change");
}

#[test]
fn trim_end_matches_std() {
    for s in ["a b  ", "é\u{85}", "\u{2000}\u{200a}z\u{200b}", "x\u{1680}", "warning: x\r\n"] {
        assert_eq!(trim_end(s), s.trim_end());
    }
}

#[test]
fn trim_end_twice_same_as_once() {
    for s in ["a  ", " ", "b\n\n", "c"] {
        let once = trim_end(s);
        assert_eq!(trim_end(&once), once);
    }
}

#[test]
fn same_text_compares_characters() {
    assert!(same_text("target", "target"));
    assert!(!same_text("target", "targets"));
    assert!(same_text("", ""));
}

#[test]
fn bool_texts() {
    assert_eq!(bool_text(true), "true");
    assert_eq!(bool_text(false), "false");
}

#[test]
fn copy_texts_copies() {
    let v = vec!["a".to_string(), "b c".to_string()];
    assert_eq!(copy_texts(&v), v);
}

use vault_nova::text::{is_blank, is_whitespace, precedes, trim};

#[test]
fn trim_removes_surrounding_unicode_whitespace() {
    assert_eq!(trim("  github \t"), "github");
    assert_eq!(trim("\u{3000}a b\u{a0}"), "a b");
    assert_eq!(trim("   "), "");
    assert_eq!(trim(""), "");
    assert_eq!(trim("x"), "x");
}

#[test]
fn whitespace_matches_std() {
    for c in ['\t', '\n', ' ', '\u{85}', '\u{a0}', '\u{2000}', '\u{3000}', 'a', '0', '\u{200b}'] {
        assert_eq!(is_whitespace(c), c.is_whitespace());
    }
}

#[test]
fn blank_strings() {
    assert!(is_blank(""));
    assert!(is_blank(" \n\t"));
    assert!(!is_blank(" a "));
}

#[test]
fn precedes_is_the_string_order() {
    let words = ["", "a", "ab", "b", "B", "github", "gitlab", "Z", "é", "e"];
    for a in words {
        for b in words {
            assert_eq!(precedes(a, b), a < b, "{a:?} {b:?}");
        }
    }
}

#[test]
fn trimming_twice_is_trimming_once() {
    for s in ["  a b  ", "\u{2028}x\t", "", "   ", "plain"] {
        let once = trim(s);
        assert_eq!(trim(&once), once);
    }
}

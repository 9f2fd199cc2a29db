use rustylook::fold::{eq_ignoring_case, lower_char};

#[test]
fn lower_char_folds_capitals() {
    assert_eq!(lower_char('A'), 'a');
    assert_eq!(lower_char('M'), 'm');
    assert_eq!(lower_char('Z'), 'z');
}

#[test]
fn lower_char_keeps_everything_else() {
    for c in ['a', 'z', '0', '9', ' ', '@', '[', '`', '{', '\x1B', '\0', '\u{c9}', '\u{e9}', '\u{212a}', '\u{10ffff}'] {
        assert_eq!(lower_char(c), c);
    }
}

#[test]
fn lower_char_agrees_with_std_on_every_character() {
    for c in '\0'..=char::MAX {
        assert_eq!(lower_char(c), c.to_ascii_lowercase());
    }
}

#[test]
fn eq_ignoring_case_on_equal_words() {
    assert!(eq_ignoring_case("", ""));
    assert!(eq_ignoring_case("red", "red"));
    assert!(eq_ignoring_case("RED", "red"));
    assert!(eq_ignoring_case("red", "RED"));
    assert!(eq_ignoring_case("ReD", "rEd"));
    assert!(eq_ignoring_case("a1-b2", "A1-B2"));
    assert!(eq_ignoring_case("\u{e9}t\u{e9}", "\u{e9}T\u{e9}"));
}

#[test]
fn eq_ignoring_case_on_different_words() {
    assert!(!eq_ignoring_case("red", "rod"));
    assert!(!eq_ignoring_case("red", "re"));
    assert!(!eq_ignoring_case("re", "red"));
    assert!(!eq_ignoring_case("", "a"));
    assert!(!eq_ignoring_case("a", ""));
    assert!(!eq_ignoring_case("red", "red "));
    assert!(!eq_ignoring_case("gray", "grey"));
    assert!(!eq_ignoring_case("@", "`"));
    assert!(!eq_ignoring_case("[", "{"));
    assert!(!eq_ignoring_case("\u{c9}", "\u{e9}"));
    assert!(!eq_ignoring_case("\u{212a}", "k"));
}

#[test]
fn eq_ignoring_case_agrees_with_std() {
    let words = ["", "a", "A", "b", "red", "RED", "Red", "reD", "rex", "redd", "\u{e9}", "\u{c9}", "k", "K", "\u{212a}"];
    for a in words {
        for b in words {
            assert_eq!(eq_ignoring_case(a, b), a.eq_ignore_ascii_case(b), "{a:?} {b:?}");
        }
    }
}

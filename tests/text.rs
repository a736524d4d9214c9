use btwd::text::{ascii_lowercase, normalize_short, sanitize_passive_body, trim};

#[test]
fn normalize_lowercases_and_strips_punctuation() {
    assert_eq!(normalize_short("Yes!"), "yes");
    assert_eq!(normalize_short("  Do   IT.  "), "do it");
    assert_eq!(normalize_short("can't\tstop"), "cant stop");
}

#[test]
fn normalize_collapses_unicode_whitespace() {
    assert_eq!(normalize_short("a\u{00A0}\u{3000} b\n\nc"), "a b c");
}

#[test]
fn normalize_drops_non_ascii_letters() {
    assert_eq!(normalize_short("Café, ok?"), "caf ok");
    assert_eq!(normalize_short("¿¡!?"), "");
    assert_eq!(normalize_short(""), "");
}

#[test]
fn sanitize_removes_quote_characters() {
    assert_eq!(
        sanitize_passive_body("He said \"hi\" and ‘bye’ – it’s `code` “done”"),
        "He said hi and bye – its code done"
    );
    assert_eq!(sanitize_passive_body("plain"), "plain");
}

#[test]
fn trim_removes_surrounding_whitespace() {
    assert_eq!(trim("  hello world \n"), "hello world");
    assert_eq!(trim("\u{2003}x\u{2003}"), "x");
    assert_eq!(trim("   "), "");
    assert_eq!(trim(""), "");
}

#[test]
fn ascii_lowercase_keeps_other_characters() {
    assert_eq!(ascii_lowercase("YeS Ä"), "yes Ä");
}

#[test]
fn normalize_is_idempotent_and_well_shaped() {
    for s in ["  Hello,   WORLD!! ", "Do\u{2003}it", "a--b  c", "", "  "] {
        let n = normalize_short(s);
        assert_eq!(normalize_short(&n), n);
        assert!(!n.starts_with(' ') && !n.ends_with(' ') && !n.contains("  "));
        assert!(n.chars().all(|c| c == ' ' || c.is_ascii_digit() || c.is_ascii_lowercase()));
    }
    assert_eq!(normalize_short("a--b  c"), "ab c");
}

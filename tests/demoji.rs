use std::borrow::Cow;

use demoji::{demoji, CompileError, Demoji, Matcher};

fn run(s: &str) -> String {
    demoji(s).unwrap().into_owned()
}

#[test]
fn mixed_text_and_emoji() {
    assert_eq!(run("\u{26A1}hel\u{2705}\u{1F642}lo\u{1F642}"), "hello");
}

#[test]
fn only_emoji_gives_empty() {
    assert_eq!(run("\u{1F642}\u{1F642}\u{1F642}"), "");
}

#[test]
fn empty_input() {
    assert_eq!(run(""), "");
}

#[test]
fn text_without_emoji_is_borrowed() {
    let s = "no emoji here";
    let r = demoji(s).unwrap();
    assert_eq!(r, "no emoji here");
    assert!(matches!(r, Cow::Borrowed(_)));
    assert_eq!(r.as_ptr(), s.as_ptr());
}

#[test]
fn text_with_emoji_is_owned() {
    let r = demoji("a\u{1F642}").unwrap();
    assert!(matches!(r, Cow::Owned(_)));
    assert_eq!(r, "a");
}

#[test]
fn regional_indicator_flag() {
    assert_eq!(run("\u{1F1FA}\u{1F1F8}flag"), "flag");
}

#[test]
fn interleaved_letters_and_emoji() {
    assert_eq!(run("a\u{1F642}b\u{2705}c"), "abc");
}

#[test]
fn supplementary_ideographs_are_kept() {
    assert_eq!(
        run("\u{20000}\u{20001}\u{1F642}\u{2A6D6}\u{1F600}"),
        "\u{20000}\u{20001}\u{2A6D6}"
    );
}

#[test]
fn chinese_text_is_kept() {
    assert_eq!(run("\u{4F60}\u{597D}\u{1F642}\u{4E16}\u{754C}"), "\u{4F60}\u{597D}\u{4E16}\u{754C}");
}

#[test]
fn ideographs_alone_come_back_borrowed() {
    let s = "\u{4F60}\u{3400}\u{F900}\u{20000}";
    let r = demoji(s).unwrap();
    assert!(matches!(r, Cow::Borrowed(_)));
    assert_eq!(r.as_ptr(), s.as_ptr());
}

#[test]
fn ideograph_block_edges() {
    assert_eq!(run("\u{33FF}\u{3400}\u{4DBF}\u{4DC0}"), "\u{3400}\u{4DBF}");
    assert_eq!(run("\u{4DFF}\u{4E00}\u{9FFF}\u{A000}"), "\u{4E00}\u{9FFF}");
    assert_eq!(run("\u{F8FF}\u{F900}\u{FAFF}\u{FB00}"), "\u{F900}\u{FAFF}");
}

#[test]
fn removal_is_idempotent() {
    let inputs = [
        "\u{26A1}hel\u{2705}\u{1F642}lo\u{1F642}",
        "plain",
        "",
        "x\u{1F680}\u{1F6FF}y",
    ];
    for s in inputs {
        let once = run(s);
        assert_eq!(run(&once), once);
    }
}

#[test]
fn range_boundaries() {
    assert_eq!(run("\u{24C1}"), "\u{24C1}");
    assert_eq!(run("\u{24C2}"), "");
    assert_eq!(run("\u{26A1}"), "");
    assert_eq!(run("\u{1F251}"), "");
    assert_eq!(run("\u{1F252}"), "\u{1F252}");
    assert_eq!(run("\u{1F2FF}"), "\u{1F2FF}");
    assert_eq!(run("\u{1F300}"), "");
    assert_eq!(run("\u{1F64F}"), "");
    assert_eq!(run("\u{1F6FF}"), "");
    assert_eq!(run("\u{1F700}"), "\u{1F700}");
    assert_eq!(run("\u{24C1}\u{2702}\u{27B0}"), "\u{24C1}");
}

#[test]
fn ascii_and_latin_are_kept() {
    let s = "Hello, world! caf\u{E9} 123 \t\n";
    assert_eq!(run(s), s);
}

#[test]
fn demojify_on_str() {
    let s: &str = "a\u{1F642}b";
    assert_eq!(s.demojify().unwrap(), "ab");
}

#[test]
fn demojify_on_string() {
    let s = String::from("\u{1F600}ok\u{1F680}");
    assert_eq!(s.demojify().unwrap(), "ok");
}

#[test]
fn matcher_is_reusable() {
    let m = Matcher::emoji().unwrap();
    assert_eq!(m.strip("one\u{1F642}"), "one");
    assert_eq!(m.strip("\u{1F642}two"), "two");
    assert!(matches!(m.strip("three"), Cow::Borrowed("three")));
}

#[test]
fn emoji_pattern_compiles() {
    assert!(Matcher::emoji().is_ok());
    assert_ne!(demoji("x").err(), Some(CompileError));
}

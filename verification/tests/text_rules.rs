use heungguk_poc_rag::text::{blank, truncate_text, white_space, ELLIPSIS};

#[test]
fn short_text_is_left_alone() {
    assert_eq!(truncate_text(String::from("abc"), 5), "abc");
}

#[test]
fn text_of_exactly_the_limit_is_left_alone() {
    assert_eq!(truncate_text(String::from("abcde"), 5), "abcde");
}

#[test]
fn long_text_is_cut_and_marked() {
    assert_eq!(truncate_text(String::from("abcdef"), 5), "abcde\u{2026}");
}

#[test]
fn limit_of_one_keeps_one_character() {
    assert_eq!(truncate_text(String::from("xyz"), 1), "x\u{2026}");
}

#[test]
fn zero_limit_never_cuts() {
    let long = "x".repeat(10_000);
    assert_eq!(truncate_text(long.clone(), 0), long);
}

#[test]
fn negative_limit_never_cuts() {
    assert_eq!(truncate_text(String::from("some text"), -1), "some text");
    assert_eq!(truncate_text(String::from("some text"), i32::MIN), "some text");
}

#[test]
fn empty_text_stays_empty() {
    assert_eq!(truncate_text(String::new(), 0), "");
    assert_eq!(truncate_text(String::new(), 3), "");
}

#[test]
fn cut_counts_characters_not_bytes() {
    // Six characters, eighteen bytes.
    let text = String::from("\u{D55C}\u{AD6D}\u{C5B4}\u{BB38}\u{C11C}\u{B2E4}");
    assert_eq!(text.len(), 18);
    let cut = truncate_text(text.clone(), 4);
    assert_eq!(cut, "\u{D55C}\u{AD6D}\u{C5B4}\u{BB38}\u{2026}");
    assert_eq!(cut.chars().count(), 5);
    // It fits a limit of six characters although it is longer in bytes.
    assert_eq!(truncate_text(text.clone(), 6), text);
}

#[test]
fn cut_text_is_at_most_one_longer_than_the_limit() {
    let text: String = "The quick brown fox jumps over the lazy dog".to_string();
    for limit in 1..60 {
        let out = truncate_text(text.clone(), limit);
        let shown = out.chars().count();
        assert!(shown <= limit as usize + 1);
        if text.chars().count() > limit as usize {
            assert_eq!(shown, limit as usize + 1);
            assert_eq!(out.chars().last(), Some(ELLIPSIS));
            assert!(text.starts_with(&out[..out.len() - ELLIPSIS.len_utf8()]));
        } else {
            assert_eq!(out, text);
            assert_ne!(out.chars().last(), Some(ELLIPSIS));
        }
    }
}

#[test]
fn short_text_that_ends_with_an_ellipsis_keeps_it() {
    assert_eq!(truncate_text(String::from("wait\u{2026}"), 10), "wait\u{2026}");
}

#[test]
fn ellipsis_is_the_horizontal_ellipsis() {
    assert_eq!(ELLIPSIS, '…');
}

#[test]
fn empty_text_is_blank() {
    assert!(blank(""));
}

#[test]
fn spaces_are_blank() {
    assert!(blank("   "));
    assert!(blank(" \t\r\n"));
    assert!(blank("\u{3000}\u{2003}\u{00A0}"));
}

#[test]
fn text_with_a_letter_is_not_blank() {
    assert!(!blank("a"));
    assert!(!blank("  a  "));
    assert!(!blank("page > 3"));
    assert!(!blank("\u{200B}"));
}

#[test]
fn white_space_agrees_with_the_standard_library_on_every_character() {
    let mut c = 0u32;
    while c <= 0x10FFFF {
        if let Some(ch) = char::from_u32(c) {
            assert_eq!(white_space(ch), ch.is_whitespace(), "U+{:04X}", c);
        }
        c += 1;
    }
}

#[test]
fn blank_agrees_with_trimming() {
    let samples = [
        "", " ", "   ", "\t", "\n\n", " a", "a ", " a ", "doc_id == \"x\"", "\u{2028}", "\u{FEFF}",
        "\u{1680}\u{180E}", "\u{0085}", "\u{001C}", "\u{000B}\u{000C}",
    ];
    for s in samples {
        assert_eq!(blank(s), s.trim().is_empty(), "{:?}", s);
    }
}

use handy::text::{truncate_front, TextAccumulator, MAX_COMPLETED_TEXT_LEN};

#[test]
fn truncate_front_no_op_when_within_limit() {
    let mut s = "hello".to_string();
    truncate_front(&mut s, 10);
    assert_eq!(s, "hello");
}

#[test]
fn truncate_front_exact_limit() {
    let mut s = "hello".to_string();
    truncate_front(&mut s, 5);
    assert_eq!(s, "hello");
}

#[test]
fn truncate_front_trims_from_front() {
    let mut s = "hello world".to_string();
    truncate_front(&mut s, 5);
    assert_eq!(s, "world");
}

#[test]
fn truncate_front_respects_char_boundary() {
    // 'é' is 2 bytes in UTF-8: "café latte" is 11 bytes.
    let mut s = "café latte".to_string();
    assert_eq!(s.len(), 11);
    truncate_front(&mut s, 8);
    assert_eq!(s, "é latte");
}

#[test]
fn truncate_front_multibyte_boundary_mid_char() {
    // 'x' (1) + emoji (4) + 'y' (1) = 6 bytes; cutting 4 bytes lands mid-emoji.
    let mut s = "x\u{1F600}y".to_string();
    assert_eq!(s.len(), 6);
    truncate_front(&mut s, 2);
    assert_eq!(s, "y");
}

#[test]
fn text_accumulator_single_segment() {
    let mut acc = TextAccumulator::new();
    let endpoint = acc.push_segment("hello", false);
    assert!(!endpoint);
    assert_eq!(acc.display_text(), "hello");
}

#[test]
fn text_accumulator_endpoint_moves_to_completed() {
    let mut acc = TextAccumulator::new();
    acc.push_segment("hello", false);
    let endpoint = acc.push_segment(" world", true);
    assert!(endpoint);
    assert_eq!(acc.display_text(), "hello world");
    assert!(acc.current_sentence.is_empty());
}

#[test]
fn text_accumulator_multiple_endpoints() {
    let mut acc = TextAccumulator::new();
    acc.push_segment("first", true);
    acc.push_segment("second", true);
    acc.push_segment("third", false);
    assert_eq!(acc.display_text(), "first second third");
}

#[test]
fn text_accumulator_truncate_caps_completed() {
    let mut acc = TextAccumulator::new();
    let long_text = "a".repeat(MAX_COMPLETED_TEXT_LEN + 500);
    acc.push_segment(&long_text, true);
    assert!(acc.completed_text.len() <= MAX_COMPLETED_TEXT_LEN);
}

#[test]
fn text_accumulator_display_text_concatenation() {
    let mut acc = TextAccumulator::new();
    assert_eq!(acc.display_text(), "");

    acc.push_segment("  partial ", false);
    assert_eq!(acc.display_text(), "partial");

    acc.push_segment("", true);
    acc.push_segment(" next", false);
    assert_eq!(acc.display_text(), "partial next");

    let mut acc2 = TextAccumulator::new();
    acc2.push_segment("done", true);
    assert_eq!(acc2.display_text(), "done");
}

#[test]
fn truncate_front_twice_is_same_as_once() {
    let mut s = "naïve café".to_string();
    truncate_front(&mut s, 7);
    let once = s.clone();
    truncate_front(&mut s, 7);
    assert_eq!(s, once);
    assert_eq!(once, "e café");
}

#[test]
fn truncate_front_to_zero_empties() {
    let mut s = "abc".to_string();
    truncate_front(&mut s, 0);
    assert_eq!(s, "");
    let mut e = String::new();
    truncate_front(&mut e, 0);
    assert_eq!(e, "");
}

#[test]
fn sentence_is_capped_without_endpoint() {
    let mut acc = TextAccumulator::new();
    let long_text = "b".repeat(handy::text::MAX_SENTENCE_LEN + 10);
    assert!(!acc.push_segment(&long_text, false));
    assert_eq!(acc.current_sentence.len(), handy::text::MAX_SENTENCE_LEN);
    assert!(acc.completed_text.is_empty());
}

#[test]
fn whitespace_only_sentence_still_closes() {
    let mut acc = TextAccumulator::new();
    acc.push_segment("first", true);
    assert!(acc.push_segment(" \u{3000}\t", true));
    assert_eq!(acc.completed_text, "first ");
    assert_eq!(acc.display_text(), "first ");
}

#[test]
fn unicode_whitespace_is_trimmed() {
    let mut acc = TextAccumulator::new();
    acc.push_segment("\u{00A0}\u{2003}word\u{0085}\u{000B}", false);
    assert_eq!(acc.display_text(), "word");
    assert_eq!(handy::text::trim(" \u{202F}a b\n"), "a b");
}

#[test]
fn empty_endpoint_does_not_move() {
    let mut acc = TextAccumulator::new();
    assert!(!acc.push_segment("", true));
    assert_eq!(acc.display_text(), "");
}

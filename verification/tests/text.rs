use jellium::text::{
    chars_of, decimal2_text, decimal_text, is_ascii_alphanumeric, is_ascii_digit, is_control,
    is_numeric, is_whitespace, joined, same_text, signed_text, trim, truncated,
};
use jellium::time::{Duration, Instant};

#[test]
fn character_classes_are_those_of_unicode() {
    for n in 0..=0x10ffffu32 {
        if let Some(c) = char::from_u32(n) {
            assert_eq!(is_whitespace(c), c.is_whitespace(), "{n:x}");
            assert_eq!(is_control(c), c.is_control(), "{n:x}");
            assert_eq!(is_ascii_digit(c), c.is_ascii_digit(), "{n:x}");
            assert_eq!(is_ascii_alphanumeric(c), c.is_ascii_alphanumeric(), "{n:x}");
        }
    }
}

#[test]
fn trimming_takes_blanks_off_both_ends() {
    for s in ["", " ", "a", " a b ", "\t\u{2003}x\u{3000}\n", "x \u{85}"] {
        assert_eq!(trim(s), s.trim());
    }
}

#[test]
fn numbers_are_written_in_decimal() {
    for n in [0u64, 7, 10, 99, 100, 12_345, u64::MAX] {
        assert_eq!(decimal_text(n), n.to_string());
    }
    for n in [0i64, 5, -5, i64::MAX, i64::MIN] {
        assert_eq!(signed_text(n), n.to_string());
    }
    for n in [0u64, 9, 10, 59] {
        assert_eq!(decimal2_text(n), format!("{n:02}"));
    }
}

#[test]
fn texts_are_cut_and_joined_by_characters() {
    assert_eq!(truncated("葬送の", 2), "葬送");
    assert_eq!(truncated("ab", 5), "ab");
    assert_eq!(joined("ab", "é"), "abé");
    assert_eq!(chars_of("aé"), vec!['a', 'é']);
    assert!(same_text("é", "é"));
    assert!(!same_text("é", "e"));
    assert!(!same_text("a", "ab"));
    assert!(is_numeric("0123"));
    assert!(!is_numeric(""));
    assert!(!is_numeric("1a"));
}

#[test]
fn durations_saturate_at_the_past() {
    let a = Instant::from_nanos(5);
    let b = a.after(Duration::from_millis(2));
    assert_eq!(b.nanos, 2_000_005);
    assert_eq!(b.duration_since(a), Duration::from_nanos(2_000_000));
    assert_eq!(a.duration_since(b), Duration::from_nanos(0));
    assert_eq!(Duration::from_secs(3), Duration::from_millis(3_000));
}

use cuesplit::text::{
    chars_of, decimal_chars, first_word_chars, padded_decimal_chars, parse_number, split_chars,
    string_of, trim_chars, without_chars,
};
use cuesplit::timing::{starts_before, CueDuration};
use std::cmp::Ordering;

fn text(chars: &Vec<char>) -> String {
    string_of(chars)
}

#[test]
fn later_second_beats_more_frames() {
    assert!(CueDuration::new(0, 1, 0) > CueDuration::new(0, 0, 74));
    assert!(CueDuration::new(1, 0, 0) > CueDuration::new(0, 59, 74));
    assert!(CueDuration::new(0, 0, 74) < CueDuration::new(0, 1, 0));
}

#[test]
fn order_goes_by_frame_count_not_by_fields() {
    let a = CueDuration::new(0, 1, 0);
    let b = CueDuration::new(0, 0, 75);
    assert_eq!(a.partial_cmp(&b), Some(Ordering::Equal));
    assert_ne!(a, b);
    assert_eq!(CueDuration::new(2, 0, 0).partial_cmp(&CueDuration::new(1, 59, 74)), Some(Ordering::Greater));
    assert_eq!(CueDuration::new(1, 59, 74).partial_cmp(&CueDuration::new(2, 0, 0)), Some(Ordering::Less));
}

#[test]
fn total_frames_is_the_formula() {
    assert_eq!(CueDuration::new(3, 45, 12).total_frames(), 3 * 60 * 75 + 45 * 75 + 12);
    assert_eq!(CueDuration::new(0, 0, 0).total_frames(), 0);
    assert_eq!(
        CueDuration::new(u32::MAX, u32::MAX, u32::MAX).total_frames(),
        u32::MAX as u64 * 4500 + u32::MAX as u64 * 75 + u32::MAX as u64
    );
    assert_eq!(CueDuration::new(7, 10, 30).total_seconds(), 430);
}

#[test]
fn starts_before_is_strict() {
    let a = CueDuration::new(3, 45, 0);
    assert!(!starts_before(&a, &a));
    assert!(starts_before(&a, &CueDuration::new(3, 45, 1)));
    assert!(!starts_before(&CueDuration::new(3, 45, 1), &a));
}

#[test]
fn timestamp_splits_minutes_into_hours() {
    assert_eq!(text(&CueDuration::new(3, 30, 0).timestamp_chars()), "00:03:30.000");
    assert_eq!(text(&CueDuration::new(75, 5, 37).timestamp_chars()), "01:15:05.493");
    assert_eq!(text(&CueDuration::new(0, 0, 74).timestamp_chars()), "00:00:00.986");
    assert_eq!(text(&CueDuration::new(6000, 0, 1).timestamp_chars()), "100:00:00.013");
}

#[test]
fn cue_notation_pads_to_two_digits() {
    assert_eq!(text(&CueDuration::new(3, 5, 7).cue_notation_chars()), "03:05:07");
    assert_eq!(text(&CueDuration::new(123, 45, 6).cue_notation_chars()), "123:45:06");
}

#[test]
fn decimal_digits_and_padding() {
    assert_eq!(text(&decimal_chars(0)), "0");
    assert_eq!(text(&decimal_chars(1234567890)), "1234567890");
    assert_eq!(text(&decimal_chars(u64::MAX)), "18446744073709551615");
    assert_eq!(text(&padded_decimal_chars(7, 2)), "07");
    assert_eq!(text(&padded_decimal_chars(123, 2)), "123");
    assert_eq!(text(&padded_decimal_chars(0, 3)), "000");
    assert_eq!(text(&padded_decimal_chars(5, 0)), "5");
}

#[test]
fn parse_number_reads_plain_decimals() {
    assert_eq!(parse_number(&chars_of("0"), 10), Some(0));
    assert_eq!(parse_number(&chars_of("007"), 10), Some(7));
    assert_eq!(parse_number(&chars_of("+12"), 100), Some(12));
    assert_eq!(parse_number(&chars_of("4294967295"), u32::MAX as u64), Some(4294967295));
    assert_eq!(parse_number(&chars_of("18446744073709551615"), u64::MAX), Some(u64::MAX));
}

#[test]
fn parse_number_rejects_everything_else() {
    assert_eq!(parse_number(&chars_of(""), 10), None);
    assert_eq!(parse_number(&chars_of("+"), 10), None);
    assert_eq!(parse_number(&chars_of("-1"), 10), None);
    assert_eq!(parse_number(&chars_of("12a"), 100), None);
    assert_eq!(parse_number(&chars_of(" 1"), 100), None);
    assert_eq!(parse_number(&chars_of("++1"), 100), None);
    assert_eq!(parse_number(&chars_of("11"), 10), None);
    assert_eq!(parse_number(&chars_of("4294967296"), u32::MAX as u64), None);
    assert_eq!(parse_number(&chars_of("18446744073709551616"), u64::MAX), None);
    assert_eq!(parse_number(&chars_of("99999999999999999999999"), u64::MAX), None);
}

#[test]
fn trim_drops_white_space_at_both_ends_only() {
    assert_eq!(text(&trim_chars(&chars_of("  a b \t\r\n"))), "a b");
    assert_eq!(text(&trim_chars(&chars_of("\u{a0}\u{3000}x\u{2003}"))), "x");
    assert_eq!(text(&trim_chars(&chars_of("   "))), "");
    assert_eq!(text(&trim_chars(&chars_of(""))), "");
    assert_eq!(text(&trim_chars(&chars_of("a"))), "a");
}

#[test]
fn trim_agrees_with_the_standard_library() {
    for code in 0u32..0x3100 {
        if let Some(c) = char::from_u32(code) {
            let s = format!("{}x{}", c, c);
            assert_eq!(text(&trim_chars(&chars_of(&s))), s.trim());
        }
    }
}

#[test]
fn split_keeps_empty_pieces() {
    let parts = split_chars(&chars_of("a,b,,c"), ',');
    let parts: Vec<String> = parts.iter().map(text).collect();
    assert_eq!(parts, vec!["a", "b", "", "c"]);
    let parts = split_chars(&chars_of(""), ',');
    assert_eq!(parts.len(), 1);
    assert_eq!(text(&parts[0]), "");
    let parts = split_chars(&chars_of(","), ',');
    assert_eq!(parts.len(), 2);
}

#[test]
fn first_word_and_without() {
    assert_eq!(text(&first_word_chars(&chars_of("  01 AUDIO"))), "01");
    assert_eq!(text(&first_word_chars(&chars_of("01"))), "01");
    assert_eq!(text(&first_word_chars(&chars_of("   "))), "");
    assert_eq!(text(&without_chars(&chars_of("\"a \"b\"\""), '"')), "a b");
}

#[test]
fn chars_and_strings_convert_both_ways() {
    let s = "Ünïcödé ✓ text";
    assert_eq!(chars_of(s), s.chars().collect::<Vec<char>>());
    assert_eq!(string_of(&chars_of(s)), s);
}

#[test]
fn parse_number_agrees_with_the_standard_library() {
    let samples = [
        "", "0", "1", "+1", "-1", "+", "++1", "+-1", "00", "0001", "12", "255", "256", "4294967295",
        "4294967296", "99999999999", " 1", "1 ", "1_0", "0x10", "1e3", "１２", "٣", "2²", "+0",
    ];
    for s in samples {
        assert_eq!(parse_number(&chars_of(s), u32::MAX as u64), s.parse::<u32>().ok().map(|v| v as u64));
        assert_eq!(parse_number(&chars_of(s), u8::MAX as u64), s.parse::<u8>().ok().map(|v| v as u64));
        assert_eq!(parse_number(&chars_of(s), u64::MAX), s.parse::<u64>().ok());
    }
}

#[test]
fn split_agrees_with_the_standard_library() {
    let samples = ["", "a", " ", "a b", " a  b ", "::", "1:2:3", "a\nb\n", "é è"];
    for s in samples {
        for d in [' ', ':', '\n'] {
            let ours: Vec<String> = split_chars(&chars_of(s), d).iter().map(text).collect();
            let theirs: Vec<String> = s.split(d).map(|p| p.to_string()).collect();
            assert_eq!(ours, theirs);
        }
    }
}

#[test]
fn padding_agrees_with_the_standard_library() {
    for n in [0u64, 1, 9, 10, 11, 99, 100, 101, 999, 1000, 12345, u32::MAX as u64, u64::MAX] {
        assert_eq!(text(&decimal_chars(n)), format!("{}", n));
        assert_eq!(text(&padded_decimal_chars(n, 2)), format!("{:02}", n));
        assert_eq!(text(&padded_decimal_chars(n, 3)), format!("{:03}", n));
    }
}

#[test]
fn first_word_agrees_with_the_standard_library() {
    for s in ["01 AUDIO", "  01\tAUDIO", "01", "", "   ", "\u{3000}x\u{a0}y", "a\r\n"] {
        assert_eq!(
            text(&first_word_chars(&chars_of(s))),
            s.split_whitespace().next().unwrap_or("")
        );
    }
}

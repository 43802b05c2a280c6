use video_compressor::text::{
    chars_of, contains, decimal, parse_u64, push_decimal, same_text, split_once,
};

#[test]
fn chars_of_gives_each_character() {
    assert_eq!(chars_of("a/б"), vec!['a', '/', 'б']);
    assert_eq!(chars_of(""), Vec::<char>::new());
}

#[test]
fn same_text_compares_characters() {
    assert!(same_text("0/0", "0/0"));
    assert!(!same_text("0/0", "0/1"));
    assert!(!same_text("0/0", "0/0 "));
    assert!(same_text("", ""));
}

#[test]
fn contains_finds_a_needle_anywhere() {
    assert!(contains(" V..... h264_nvenc  NVIDIA NVENC H.264 encoder", "nvenc"));
    assert!(contains("nvenc", "nvenc"));
    assert!(contains("xxnvenc", "nvenc"));
    assert!(contains("nvencxx", "nvenc"));
    assert!(!contains("nven", "nvenc"));
    assert!(!contains("n venc", "nvenc"));
    assert!(!contains("", "nvenc"));
}

#[test]
fn contains_finds_the_empty_needle_everywhere() {
    assert!(contains("abc", ""));
    assert!(contains("", ""));
}

#[test]
fn contains_handles_repeats_and_other_scripts() {
    assert!(contains("aaab", "aab"));
    assert!(!contains("ababab", "abba"));
    assert!(contains("кодек qsv есть", "qsv"));
}

#[test]
fn split_once_splits_at_the_first_mark() {
    assert_eq!(
        split_once("30000/1001", '/'),
        Some(("30000".to_string(), "1001".to_string()))
    );
    assert_eq!(
        split_once("1/2/3", '/'),
        Some(("1".to_string(), "2/3".to_string()))
    );
    assert_eq!(split_once("/", '/'), Some((String::new(), String::new())));
    assert_eq!(split_once("25/", '/'), Some(("25".to_string(), String::new())));
    assert_eq!(split_once("/25", '/'), Some((String::new(), "25".to_string())));
}

#[test]
fn split_once_without_a_mark_gives_none() {
    assert_eq!(split_once("30000", '/'), None);
    assert_eq!(split_once("", '/'), None);
}

#[test]
fn parse_u64_reads_decimal_numbers() {
    assert_eq!(parse_u64("0"), Some(0));
    assert_eq!(parse_u64("1048576"), Some(1048576));
    assert_eq!(parse_u64("007"), Some(7));
    assert_eq!(parse_u64("+42"), Some(42));
    assert_eq!(parse_u64("18446744073709551615"), Some(u64::MAX));
}

#[test]
fn parse_u64_refuses_everything_else() {
    assert_eq!(parse_u64(""), None);
    assert_eq!(parse_u64("+"), None);
    assert_eq!(parse_u64("-1"), None);
    assert_eq!(parse_u64("12a"), None);
    assert_eq!(parse_u64(" 12"), None);
    assert_eq!(parse_u64("12 "), None);
    assert_eq!(parse_u64("1.5"), None);
    assert_eq!(parse_u64("++1"), None);
    assert_eq!(parse_u64("1+"), None);
    assert_eq!(parse_u64("١٢"), None);
}

#[test]
fn parse_u64_refuses_what_does_not_fit() {
    assert_eq!(parse_u64("18446744073709551616"), None);
    assert_eq!(parse_u64("99999999999999999999"), None);
    assert_eq!(parse_u64("184467440737095516150"), None);
    assert_eq!(parse_u64("18446744073709551616x"), None);
}

#[test]
fn parse_u64_agrees_with_the_standard_parser() {
    let samples = [
        "", "+", "0", "+0", "00", "5", "+5", "-5", "18446744073709551615",
        "18446744073709551616", "1e3", "0x10", "12_000", "٣",
    ];
    for text in samples {
        assert_eq!(parse_u64(text), text.parse::<u64>().ok());
    }
}

#[test]
fn decimal_writes_numbers() {
    assert_eq!(decimal(0), "0");
    assert_eq!(decimal(7), "7");
    assert_eq!(decimal(10), "10");
    assert_eq!(decimal(23), "23");
    assert_eq!(decimal(255), "255");
    assert_eq!(decimal(1000), "1000");
    assert_eq!(decimal(u64::MAX), "18446744073709551615");
}

#[test]
fn push_decimal_appends() {
    let mut text = String::from("crf=");
    push_decimal(28, &mut text);
    assert_eq!(text, "crf=28");
}

#[test]
fn decimal_and_parse_u64_are_inverse() {
    for n in [0u64, 1, 9, 10, 99, 100, 12345, u64::MAX] {
        assert_eq!(parse_u64(&decimal(n)), Some(n));
    }
}

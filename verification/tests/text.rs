use pg_browser::text::{chars_of, contains, occurs, same_text, signed_text, unsigned_text};

#[test]
fn unsigned_text_of_small_and_large_numbers() {
    assert_eq!(unsigned_text(0), "0");
    assert_eq!(unsigned_text(7), "7");
    assert_eq!(unsigned_text(10), "10");
    assert_eq!(unsigned_text(30), "30");
    assert_eq!(unsigned_text(5432), "5432");
    assert_eq!(unsigned_text(1_000_000), "1000000");
    assert_eq!(unsigned_text(u64::MAX), "18446744073709551615");
}

#[test]
fn signed_text_of_both_signs() {
    assert_eq!(signed_text(0), "0");
    assert_eq!(signed_text(-1), "-1");
    assert_eq!(signed_text(42), "42");
    assert_eq!(signed_text(-42), "-42");
    assert_eq!(signed_text(i64::MAX), "9223372036854775807");
    assert_eq!(signed_text(i64::MIN), "-9223372036854775808");
}

#[test]
fn signed_text_agrees_with_the_standard_rendering() {
    let mut v: i64 = -100_003;
    while v < 100_003 {
        assert_eq!(signed_text(v), v.to_string());
        v += 37;
    }
    let mut w: i64 = 1;
    for _ in 0..62 {
        assert_eq!(signed_text(w), w.to_string());
        assert_eq!(signed_text(-w), (-w).to_string());
        assert_eq!(signed_text(w - 1), (w - 1).to_string());
        w *= 2;
    }
}

#[test]
fn unsigned_text_agrees_with_the_standard_rendering() {
    let mut w: u64 = 1;
    for _ in 0..63 {
        assert_eq!(unsigned_text(w), w.to_string());
        assert_eq!(unsigned_text(w + 9), (w + 9).to_string());
        w *= 2;
    }
}

#[test]
fn chars_of_counts_characters_not_bytes() {
    assert_eq!(chars_of(""), Vec::<char>::new());
    assert_eq!(chars_of("abc"), vec!['a', 'b', 'c']);
    assert_eq!(chars_of("h\u{e9}\u{4e2d}"), vec!['h', '\u{e9}', '\u{4e2d}']);
}

#[test]
fn contains_finds_a_part_anywhere() {
    assert!(contains("INT4", "INT4"));
    assert!(contains("INT4[]", "INT4"));
    assert!(contains("_INT4", "INT4"));
    assert!(contains("xxINT4yy", "INT4"));
    assert!(contains("IINT4", "INT4"));
    assert!(contains("ININT4", "INT4"));
}

#[test]
fn contains_rejects_what_is_not_there() {
    assert!(!contains("INT", "INT4"));
    assert!(!contains("", "a"));
    assert!(!contains("INT 4", "INT4"));
    assert!(!contains("int4", "INT4"));
    assert!(!contains("4TNI", "INT4"));
}

#[test]
fn contains_the_empty_string_always() {
    assert!(contains("", ""));
    assert!(contains("abc", ""));
}

#[test]
fn occurs_matches_contains_on_characters() {
    let hay = chars_of("FLOAT8[]");
    assert!(occurs(&hay, "FLOAT8"));
    assert!(occurs(&hay, "[]"));
    assert!(!occurs(&hay, "FLOAT4"));
    assert!(!occurs(&hay, "FLOAT8[]x"));
}

#[test]
fn same_text_compares_whole_strings() {
    assert!(same_text("YES", "YES"));
    assert!(same_text("", ""));
    assert!(!same_text("YES", "NO"));
    assert!(!same_text("YES", "YES "));
    assert!(!same_text("YES", "YE"));
    assert!(!same_text("YES", "yes"));
}

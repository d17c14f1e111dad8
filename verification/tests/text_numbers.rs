use ironbar_core::decimal::{i64_to_chars, parse_i32, parse_u64, parse_usize, u64_to_chars, u64_to_chars2};
use ironbar_core::text::{chars_of, contains_chars, replace_str, str_eq, string_of};

fn cs(s: &str) -> Vec<char> {
    s.chars().collect()
}

#[test]
fn decimal_rendering() {
    assert_eq!(string_of(&u64_to_chars(0)), "0");
    assert_eq!(string_of(&u64_to_chars(u64::MAX)), u64::MAX.to_string());
    assert_eq!(string_of(&u64_to_chars2(7)), "07");
    assert_eq!(string_of(&u64_to_chars2(123)), "123");
    assert_eq!(string_of(&i64_to_chars(i64::MIN)), i64::MIN.to_string());
    assert_eq!(string_of(&i64_to_chars(-42)), "-42");
}

#[test]
fn decimal_parsing_matches_std() {
    for s in ["0", "+12", "007", "18446744073709551615", "18446744073709551616", "", "+", "-1", "1a"] {
        assert_eq!(parse_u64(&cs(s)), s.parse::<u64>().ok(), "{s}");
        assert_eq!(parse_usize(&cs(s)), s.parse::<usize>().ok(), "{s}");
    }
    for s in ["0", "-0", "+5", "-2147483648", "2147483647", "2147483648", "-", "x"] {
        assert_eq!(parse_i32(&cs(s)), s.parse::<i32>().ok(), "{s}");
    }
}

#[test]
fn replace_matches_std() {
    for (s, p, t) in [("aaa", "a", "b"), ("abab", "ab", "x"), ("abc", "", "-"), ("", "", "x"), ("aaaa", "aa", "a")] {
        assert_eq!(replace_str(s, p, t), s.replace(p, t));
    }
    assert!(contains_chars(&cs("hello"), &cs("ll")));
    assert!(!contains_chars(&cs("hello"), &cs("lo!")));
    assert!(str_eq("a", "a") && !str_eq("a", "b"));
    assert_eq!(chars_of("h\u{e9}"), vec!['h', '\u{e9}']);
}

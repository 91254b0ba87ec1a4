use system_repair_toolkit::text::{
    contains, count_lines, decimal_string, join, parse_i32, parse_usize, signed_decimal_string,
    str_eq, trim,
};

#[test]
fn decimal_forms() {
    assert_eq!(decimal_string(0), "0");
    assert_eq!(decimal_string(7), "7");
    assert_eq!(decimal_string(10), "10");
    assert_eq!(decimal_string(1234567890), "1234567890");
    assert_eq!(decimal_string(u64::MAX), u64::MAX.to_string());
    assert_eq!(signed_decimal_string(-42), "-42");
    assert_eq!(signed_decimal_string(i64::MIN), i64::MIN.to_string());
    assert_eq!(signed_decimal_string(5), "5");
}

#[test]
fn parse_usize_agrees_with_std() {
    for s in [
        "", "0", "+", "+7", "-7", "12", "007", "1 2", " 3", "3 ", "abc", "18446744073709551615",
        "18446744073709551616", "99999999999999999999", "++1", "٣",
    ] {
        assert_eq!(parse_usize(s), s.parse::<usize>().ok(), "input {:?}", s);
    }
}

#[test]
fn parse_i32_agrees_with_std() {
    for s in [
        "", "-", "+", "0", "-0", "+5", "-5", "2147483647", "2147483648", "-2147483648",
        "-2147483649", "12a", "--1", "-+1",
    ] {
        assert_eq!(parse_i32(s), s.parse::<i32>().ok(), "input {:?}", s);
    }
}

#[test]
fn decimal_reads_back() {
    for n in [0u64, 1, 9, 10, 99, 100, 65535, 4294967296] {
        assert_eq!(parse_usize(&decimal_string(n)), Some(n as usize));
    }
}

#[test]
fn trim_agrees_with_std() {
    for s in ["", "  ", " a ", "\t\r\nabc\n", "a b", "\u{3000}x\u{2009}", "\u{85}y\u{a0}", "z\u{200b}"] {
        assert_eq!(trim(s), s.trim(), "input {:?}", s);
    }
}

#[test]
fn contains_agrees_with_std() {
    for (h, n) in [("", ""), ("abc", ""), ("abc", "bc"), ("abc", "abcd"), ("aaab", "aab"), ("UP RUNNING", "UP")] {
        assert_eq!(contains(h, n), h.contains(n), "{:?} {:?}", h, n);
    }
}

#[test]
fn equality_and_join() {
    assert!(str_eq("héllo", "héllo"));
    assert!(!str_eq("hello", "hell"));
    assert_eq!(join(&["a", "b", "c"], " "), "a b c");
    assert_eq!(join(&[], " "), "");
    assert_eq!(join(&["only"], ", "), "only");
}

#[test]
fn line_counts_agree_with_std() {
    for s in ["", "a", "a\n", "a\nb", "\n", "\n\n", "a\r\nb\r\n", "x\n\ny"] {
        assert_eq!(count_lines(s), s.lines().count(), "input {:?}", s);
    }
}

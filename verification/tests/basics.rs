use wtga::text::{decimal_string, join_strings, parse_u64_chars, to_chars, trim_str};
use wtga::util::{first_char, first_two_chars, str_eq};

#[test]
fn it_works() {
    assert_eq!(2 + 2, 4);
}

#[test]
fn decimal_reads_back_as_itself() {
    for n in [0u64, 7, 10, 4096, 18446744073709551615] {
        let s = decimal_string(n);
        let c = to_chars(&s);
        assert_eq!(parse_u64_chars(&c), Some(n));
    }
}

#[test]
fn parse_accepts_plus_and_rejects_overflow() {
    assert_eq!(parse_u64_chars(&to_chars("+42")), Some(42));
    assert_eq!(parse_u64_chars(&to_chars("18446744073709551616")), None);
    assert_eq!(parse_u64_chars(&to_chars("")), None);
    assert_eq!(parse_u64_chars(&to_chars("4a")), None);
}

#[test]
fn trim_removes_unicode_blanks() {
    let t: String = trim_str("\u{3000} E: \t\n").into_iter().collect();
    assert_eq!(t, "E:");
}

#[test]
fn join_places_separators_between() {
    let parts = vec!["8GB".to_string(), "16GB".to_string()];
    assert_eq!(join_strings(&parts, " + "), "8GB + 16GB");
    assert_eq!(join_strings(&Vec::new(), ", "), "");
}

#[test]
fn first_chars_of_drive() {
    assert_eq!(first_char("E:"), "E");
    assert_eq!(first_char(""), "");
    assert_eq!(first_two_chars("E:\\"), "E:");
    assert_eq!(first_two_chars("E"), "E");
    assert!(str_eq("abc", "abc"));
    assert!(!str_eq("abc", "abd"));
}

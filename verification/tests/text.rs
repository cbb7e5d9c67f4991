use workspace_bridge::text::{chars_of, decimal, join_with_newlines, split_lines, string_of};

#[test]
fn decimal_text_of_numbers() {
    assert_eq!(decimal(0), "0");
    assert_eq!(decimal(7), "7");
    assert_eq!(decimal(3001), "3001");
    assert_eq!(decimal(u64::MAX), "18446744073709551615");
}

#[test]
fn lines_split_like_str_lines() {
    assert_eq!(split_lines("a\r\nb\n\nc"), vec!["a", "b", "", "c"]);
    assert_eq!(split_lines("x\n"), vec!["x"]);
    assert_eq!(split_lines(""), Vec::<String>::new());
    assert_eq!(split_lines("a\r"), vec!["a\r"]);
    assert_eq!(split_lines("\n"), vec![""]);
    let s = "one\ntwo\r\nthree\n";
    assert_eq!(split_lines(s), s.lines().collect::<Vec<_>>());
}

#[test]
fn join_puts_newlines_between() {
    assert_eq!(join_with_newlines(&vec![]), "");
    assert_eq!(join_with_newlines(&vec!["a".to_string()]), "a");
    assert_eq!(join_with_newlines(&vec!["a".to_string(), "".to_string(), "c".to_string()]), "a\n\nc");
}

#[test]
fn chars_round_trip() {
    let s = "héllo wörld";
    assert_eq!(string_of(&chars_of(s)), s);
}

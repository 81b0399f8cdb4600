use lian::text::{
    blank_chars, blank_str, contains_str, decimal_chars, ends_with, eq_chars, eq_str, find_char,
    from_chars, join_rows, join_texts, owned, repeat_chars, same_text, skip_token, skip_ws,
    slice_chars, split_lines, split_tokens, starts_with, to_chars, trim_chars, trim_str,
};

fn chars(s: &str) -> Vec<char> {
    s.chars().collect()
}

fn strings(rows: &[Vec<char>]) -> Vec<String> {
    rows.iter().map(|r| r.iter().collect()).collect()
}

#[test]
fn characters_and_back() {
    assert_eq!(to_chars("a包b"), vec!['a', '包', 'b']);
    assert_eq!(from_chars(&['a', '包', 'b']), "a包b");
    assert_eq!(from_chars(&to_chars("héllo ✓")), "héllo ✓");
    assert!(to_chars("").is_empty());
    assert_eq!(owned("copy"), "copy");
}

#[test]
fn comparison() {
    assert!(same_text("abc", "abc"));
    assert!(!same_text("abc", "abd"));
    assert!(!same_text("abc", "ab"));
    assert!(eq_chars(&chars("x"), &chars("x")));
    assert!(!eq_chars(&chars("x"), &chars("xy")));
    assert!(eq_str(&chars("名称"), "名称"));
    assert!(!eq_str(&chars("名称"), "名字"));
}

#[test]
fn trimming() {
    assert_eq!(trim_str("  a b \t\n"), "a b");
    assert_eq!(trim_str("\u{3000}全角\u{a0}"), "全角");
    assert_eq!(trim_str("   "), "");
    assert_eq!(trim_str(""), "");
    assert_eq!(trim_chars(&chars(" x ")), chars("x"));
    assert!(blank_str(""));
    assert!(blank_str(" \t\r\n"));
    assert!(!blank_str(" . "));
    assert!(blank_chars(&chars("  ")));
    assert!(!blank_chars(&chars(" a")));
}

#[test]
fn searching() {
    let s = chars("a:b:c");
    assert_eq!(find_char(&s, 0, ':'), 1);
    assert_eq!(find_char(&s, 2, ':'), 3);
    assert_eq!(find_char(&s, 4, ':'), 5);
    assert_eq!(find_char(&s, 5, ':'), 5);
    let t = chars("  ab  cd");
    assert_eq!(skip_ws(&t, 0), 2);
    assert_eq!(skip_token(&t, 2), 4);
    assert_eq!(skip_ws(&t, 4), 6);
    assert_eq!(skip_token(&t, 6), 8);
    assert_eq!(slice_chars(&t, 2, 4), chars("ab"));
    assert!(slice_chars(&t, 3, 3).is_empty());
}

#[test]
fn prefixes_suffixes_and_parts() {
    let s = chars("5.4 MiB/s");
    assert!(starts_with(&s, "5.4"));
    assert!(starts_with(&s, ""));
    assert!(!starts_with(&s, "5.5"));
    assert!(!starts_with(&chars("ab"), "abc"));
    assert!(ends_with(&s, "iB/s"));
    assert!(!ends_with(&s, "iB"));
    assert!(contains_str(&s, "MiB"));
    assert!(contains_str(&s, ""));
    assert!(!contains_str(&s, "KiB"));
    assert!(!contains_str(&chars(""), "a"));
}

#[test]
fn lines_are_cut_at_line_breaks() {
    assert_eq!(strings(&split_lines(&chars("a\nb\r\nc"))), vec!["a", "b", "c"]);
    assert_eq!(strings(&split_lines(&chars("a\n\nb\n"))), vec!["a", "", "b"]);
    assert_eq!(strings(&split_lines(&chars("\n"))), vec![""]);
    assert!(split_lines(&chars("")).is_empty());
    assert_eq!(strings(&split_lines(&chars("a\rb"))), vec!["a\rb"]);
}

#[test]
fn tokens_are_cut_at_white_space() {
    assert_eq!(strings(&split_tokens(&chars("  a  b\tc\n"))), vec!["a", "b", "c"]);
    assert_eq!(strings(&split_tokens(&chars("one"))), vec!["one"]);
    assert!(split_tokens(&chars(" \t ")).is_empty());
    assert!(split_tokens(&chars("")).is_empty());
}

#[test]
fn joining() {
    let rows = vec![chars("a"), chars(""), chars("c")];
    assert_eq!(join_rows(&rows, ", "), chars("a, , c"));
    assert!(join_rows(&Vec::new(), ", ").is_empty());
    let texts = vec!["x".to_string(), "y".to_string()];
    assert_eq!(join_texts(&texts, "\n"), chars("x\ny"));
    assert_eq!(join_texts(&vec!["only".to_string()], ", "), chars("only"));
}

#[test]
fn numbers_and_runs() {
    assert_eq!(decimal_chars(0), chars("0"));
    assert_eq!(decimal_chars(7), chars("7"));
    assert_eq!(decimal_chars(1234567890), chars("1234567890"));
    assert_eq!(decimal_chars(usize::MAX), chars(&usize::MAX.to_string()));
    assert_eq!(repeat_chars('*', 3), chars("***"));
    assert!(repeat_chars('*', 0).is_empty());
}

use ash::text::{is_space_char, split_args, str_equal};

fn words(line: &str) -> Vec<String> {
    split_args(line)
}

#[test]
fn splits_on_runs_of_whitespace() {
    assert_eq!(words("ls  -l\t/tmp "), vec!["ls", "-l", "/tmp"]);
}

#[test]
fn keeps_token_order() {
    assert_eq!(words("echo a b c"), vec!["echo", "a", "b", "c"]);
}

#[test]
fn empty_line_has_no_tokens() {
    assert!(words("").is_empty());
}

#[test]
fn blank_lines_have_no_tokens() {
    assert!(words("   ").is_empty());
    assert!(words("\t \n").is_empty());
    assert!(words("\u{a0}\u{3000}\u{2003}").is_empty());
}

#[test]
fn leading_and_trailing_space_dropped() {
    assert_eq!(words("\n  pwd  \n"), vec!["pwd"]);
}

#[test]
fn non_ascii_tokens_kept_whole() {
    assert_eq!(words("echo héllo wörld"), vec!["echo", "héllo", "wörld"]);
}

#[test]
fn whitespace_class_matches_std() {
    for c in ['a', ' ', '\t', '\n', '\r', '\u{b}', '\u{c}', '\u{85}', '\u{a0}', '\u{1680}',
        '\u{2000}', '\u{200a}', '\u{200b}', '\u{2028}', '\u{2029}', '\u{202f}', '\u{205f}',
        '\u{3000}', '\u{feff}', 'x', '-']
    {
        assert_eq!(is_space_char(c), c.is_whitespace(), "{:?}", c);
    }
}

#[test]
fn string_equality() {
    assert!(str_equal("echo", "echo"));
    assert!(!str_equal("echo", "Echo"));
    assert!(!str_equal("ech", "echo"));
    assert!(str_equal("", ""));
}

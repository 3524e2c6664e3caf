use ash::builtin::{echo, get_builtin, Builtin};

fn argv(items: &[&str]) -> Vec<String> {
    items.iter().map(|s| s.to_string()).collect()
}

#[test]
fn registry_holds_the_five_builtins() {
    assert_eq!(get_builtin("cd"), Some(Builtin::Cd));
    assert_eq!(get_builtin("clear"), Some(Builtin::Clear));
    assert_eq!(get_builtin("exit"), Some(Builtin::Exit));
    assert_eq!(get_builtin("pwd"), Some(Builtin::Pwd));
    assert_eq!(get_builtin("echo"), Some(Builtin::Echo));
}

#[test]
fn registry_match_is_exact_and_case_sensitive() {
    assert_eq!(get_builtin("ls"), None);
    assert_eq!(get_builtin("Echo"), None);
    assert_eq!(get_builtin("ech"), None);
    assert_eq!(get_builtin("echoo"), None);
    assert_eq!(get_builtin(""), None);
}

#[test]
fn builtin_names() {
    assert_eq!(Builtin::Clear.name_str(), "clear");
    assert_eq!(Builtin::Pwd.name_str(), "pwd");
}

#[test]
fn echo_joins_with_newline() {
    assert_eq!(echo(&argv(&["echo", "a", "b", "c"])), "a b c\n");
}

#[test]
fn echo_n_leaves_out_newline() {
    assert_eq!(echo(&argv(&["echo", "-n", "a", "b"])), "a b");
}

#[test]
fn echo_alone_writes_newline() {
    assert_eq!(echo(&argv(&["echo"])), "\n");
}

#[test]
fn echo_n_alone_writes_nothing() {
    assert_eq!(echo(&argv(&["echo", "-n"])), "");
}

#[test]
fn echo_option_only_in_first_place() {
    assert_eq!(echo(&argv(&["echo", "a", "-n"])), "a -n\n");
    assert_eq!(echo(&argv(&["echo", "-n", "-n"])), "-n");
}

#[test]
fn echo_single_word() {
    assert_eq!(echo(&argv(&["echo", "hello"])), "hello\n");
}

use ash::path::{candidate_paths, first_existing};

#[test]
fn candidates_follow_path_order() {
    assert_eq!(
        candidate_paths("/usr/local/bin:/usr/bin:/bin", "ls"),
        vec!["/usr/local/bin/ls", "/usr/bin/ls", "/bin/ls"]
    );
}

#[test]
fn empty_entries_are_kept() {
    assert_eq!(candidate_paths("/bin::/sbin:", "x"), vec!["/bin/x", "/x", "/sbin/x", "/x"]);
    assert_eq!(candidate_paths("", "x"), vec!["/x"]);
}

#[test]
fn earliest_existing_directory_wins() {
    let c = candidate_paths("/a:/b:/c", "tool");
    assert_eq!(first_existing(&c, &vec![false, true, true]), Some("/b/tool".to_string()));
    assert_eq!(first_existing(&c, &vec![true, true, true]), Some("/a/tool".to_string()));
    assert_eq!(first_existing(&c, &vec![false, false, true]), Some("/c/tool".to_string()));
}

#[test]
fn nothing_found() {
    let c = candidate_paths("/a:/b", "tool");
    assert_eq!(first_existing(&c, &vec![false, false]), None);
    assert_eq!(first_existing(&Vec::new(), &Vec::new()), None);
}

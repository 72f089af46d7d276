use clipboard::{
    append_file_entry, field_text, finished_file_list, is_file_field, parse_file_list, prepend_link,
    split_text, temp_file_path, FileEntry, TEMP_NAME_LEN,
};

fn pairs(entries: &[FileEntry]) -> Vec<(String, String)> {
    entries.iter().map(|e| (e.name.clone(), e.path.clone())).collect()
}

fn owned(v: &[(&str, &str)]) -> Vec<(String, String)> {
    v.iter().map(|(a, b)| (String::from(*a), String::from(*b))).collect()
}

#[test]
fn split_text_agrees_with_str_split() {
    let samples = ["", "a", "||", "a||b", "a|||b", "||a||", "a|b||c|d||", "é||ü|||"];
    for s in samples {
        for sep in ["||", "|"] {
            let sep_chars: Vec<char> = sep.chars().collect();
            let expected: Vec<String> = s.split(sep).map(String::from).collect();
            assert_eq!(split_text(s, &sep_chars), expected);
        }
    }
}

#[test]
fn parse_file_list_reads_entries() {
    assert_eq!(
        pairs(&parse_file_list("a.txt|/tmp/x||b.png|/tmp/y||")),
        owned(&[("a.txt", "/tmp/x"), ("b.png", "/tmp/y")])
    );
    assert_eq!(pairs(&parse_file_list("")), owned(&[]));
    assert_eq!(pairs(&parse_file_list("bad||c|d||")), owned(&[("c", "d")]));
    assert_eq!(pairs(&parse_file_list("a|b|||c|d||")), owned(&[("a", "b")]));
    assert_eq!(pairs(&parse_file_list("x|y||||z|w||")), owned(&[("x", "y")]));
    assert_eq!(pairs(&parse_file_list("|p||")), owned(&[("", "p")]));
}

#[test]
fn file_list_round_trip() {
    let mut files = String::new();
    let entries = [("photo one.png", "tmp/AbC_~1"), ("", "tmp/x"), ("ü.txt", "tmp/y")];
    for (name, path) in entries {
        append_file_entry(&mut files, name, path);
    }
    assert_eq!(files, "photo one.png|tmp/AbC_~1|||tmp/x||ü.txt|tmp/y||");
    let text = finished_file_list(files).unwrap();
    assert_eq!(pairs(&parse_file_list(&text)), owned(&entries));
    assert_eq!(finished_file_list(String::new()), None);
}

#[test]
fn temp_file_paths_are_fresh() {
    let a = temp_file_path("tmp/");
    let b = temp_file_path("tmp/");
    assert!(a.starts_with("tmp/"));
    assert_eq!(a.chars().count(), "tmp/".len() + TEMP_NAME_LEN);
    assert!(!a.contains('|'));
    assert_ne!(a, b);
}

#[test]
fn field_text_decodes_or_empties() {
    assert_eq!(field_text(b"abc123".to_vec()), "abc123");
    assert_eq!(field_text(vec![0xff, 0x41]), "");
}

#[test]
fn links_are_listed_last_first() {
    let mut links = Vec::new();
    prepend_link(&mut links, String::from("a"), String::from("la"));
    prepend_link(&mut links, String::from("b"), String::from("lb"));
    assert_eq!(links, owned(&[("b", "lb"), ("a", "la")]));
}

#[test]
fn file_field_is_told_by_name() {
    assert!(is_file_field("file", "file"));
    assert!(!is_file_field("task_id", "file"));
    assert!(!is_file_field("files", "file"));
}

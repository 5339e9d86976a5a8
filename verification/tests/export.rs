use spider_rs::export::{
    default_jsonl_file, default_storage_directory, join_lines, jsonl_file_name, remove_pattern,
    storage_directory,
};

#[test]
fn directory_is_what_comes_before_the_last_slash() {
    assert_eq!(storage_directory("./storage/data.jsonl"), "./storage");
    assert_eq!(storage_directory("data/out.jsonl"), "data");
    assert_eq!(storage_directory("out"), "");
    assert_eq!(storage_directory("file.jsonl"), "");
    assert_eq!(storage_directory(""), "");
}

#[test]
fn directory_keeps_nested_paths_as_written() {
    assert_eq!(storage_directory("a/b/c.jsonl"), "a/b");
    assert_eq!(storage_directory("out/sub/data.jsonl"), "out/sub");
    assert_eq!(storage_directory("/x/y/"), "/x/y");
    assert_eq!(storage_directory("../a/b/f.jsonl"), "../a/b");
    assert_eq!(storage_directory("./out/data"), "./out");
}

#[test]
fn file_name_gets_jsonl_suffix_without_dot() {
    assert_eq!(jsonl_file_name("out"), "out.jsonl");
    assert_eq!(jsonl_file_name("data/out"), "data/out.jsonl");
    assert_eq!(jsonl_file_name("out.json"), "out.json");
    assert_eq!(jsonl_file_name(""), ".jsonl");
}

#[test]
fn default_file_strips_scheme_and_appends_jsonl() {
    assert_eq!(default_jsonl_file("https://example.com"), "./storage/example.comjsonl");
    assert_eq!(default_jsonl_file("http://a.b/http://c"), "./storage/a.b/cjsonl");
    assert_eq!(default_storage_directory(), "./storage");
}

#[test]
fn remove_pattern_scans_left_to_right() {
    let text: Vec<char> = "aaab".chars().collect();
    let pattern: Vec<char> = "aa".chars().collect();
    assert_eq!(remove_pattern(&text, &pattern), vec!['a', 'b']);
    let empty: Vec<char> = vec![];
    assert_eq!(remove_pattern(&text, &empty), text);
}

#[test]
fn lines_are_joined_with_newlines() {
    assert_eq!(join_lines(&vec![]), Vec::<u8>::new());
    assert_eq!(join_lines(&vec![b"a".to_vec()]), b"a".to_vec());
    assert_eq!(join_lines(&vec![b"a".to_vec(), b"".to_vec(), b"c".to_vec()]), b"a\n\nc".to_vec());
}

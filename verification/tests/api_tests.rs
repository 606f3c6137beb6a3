use githut::api::{
    contents_path, decode_file_content, decode_payload, decode_readme, entry_type_of,
    file_content_path, forks_path, readme_path, search_path, sort_entries, starred_path,
    strip_newlines, DecodeError,
};
use githut::api::issues_of_kind;
use githut::types::{EntryType, FileEntry, Issue};

fn entry(name: &str, t: EntryType) -> FileEntry {
    FileEntry { name: name.to_string(), path: format!("p/{}", name), entry_type: t }
}

#[test]
fn search_path_encodes_the_query() {
    assert_eq!(
        search_path("rust tui", Some("Rust")),
        "/search/repositories?q=rust%20tui%20language%3ARust&per_page=30&sort=stars"
    );
    assert_eq!(
        search_path("#neovim", None),
        "/search/repositories?q=topic%3Aneovim&per_page=30&sort=stars"
    );
    assert_eq!(
        search_path("#rust tui", Some("Rust")),
        "/search/repositories?q=topic%3Arust%20tui%20language%3ARust&per_page=30&sort=stars"
    );
    assert_eq!(
        search_path("c#", None),
        "/search/repositories?q=c%23&per_page=30&sort=stars"
    );
    assert_eq!(
        search_path("a-b_c.d~e", None),
        "/search/repositories?q=a-b_c.d~e&per_page=30&sort=stars"
    );
    assert_eq!(
        search_path("é", Some("C++")),
        "/search/repositories?q=%C3%A9%20language%3AC%2B%2B&per_page=30&sort=stars"
    );
}

#[test]
fn request_paths() {
    assert_eq!(contents_path("o", "r", ""), "/repos/o/r/contents");
    assert_eq!(contents_path("o", "r", "src/lib"), "/repos/o/r/contents/src/lib");
    assert_eq!(file_content_path("o", "r", "a.md"), "/repos/o/r/contents/a.md");
    assert_eq!(readme_path("o", "r"), "/repos/o/r/readme");
    assert_eq!(forks_path("o", "r"), "/repos/o/r/forks");
    assert_eq!(starred_path("o", "r"), "/user/starred/o/r");
}

#[test]
fn newlines_are_stripped() {
    assert_eq!(strip_newlines("aGVs\nbG8=\n"), "aGVsbG8=");
}

#[test]
fn payload_decodes_base64_across_lines() {
    match decode_payload("aGVs\nbG8g\nd29ybGQ=\n") {
        Ok(s) => assert_eq!(s, "hello world"),
        Err(e) => panic!("unexpected error {:?}", e),
    }
}

#[test]
fn payload_replaces_invalid_utf8() {
    match decode_payload("/0E=") {
        Ok(s) => assert_eq!(s, "\u{FFFD}A"),
        Err(e) => panic!("unexpected error {:?}", e),
    }
}

#[test]
fn payload_rejects_bad_base64() {
    assert!(matches!(decode_payload("!!not base64"), Err(DecodeError::InvalidBase64)));
}

#[test]
fn readme_needs_base64() {
    match decode_readme("utf-8", "aGk=") {
        Err(DecodeError::UnexpectedEncoding(e)) => assert_eq!(e, "utf-8"),
        other => panic!("unexpected {:?}", other),
    }
    match decode_readme("base64", "aGk=") {
        Ok(s) => assert_eq!(s, "hi"),
        other => panic!("unexpected {:?}", other),
    }
}

#[test]
fn file_content_needs_content_and_base64() {
    assert!(matches!(decode_file_content(None, Some("base64")), Err(DecodeError::NoContent)));
    assert!(matches!(decode_file_content(Some("aGk="), None), Err(DecodeError::NoContent)));
    assert!(matches!(
        decode_file_content(Some("aGk="), Some("none")),
        Err(DecodeError::NoContent)
    ));
    assert!(matches!(
        decode_file_content(Some("%%%"), Some("base64")),
        Err(DecodeError::InvalidBase64)
    ));
    match decode_file_content(Some("aGk="), Some("base64")) {
        Ok(s) => assert_eq!(s, "hi"),
        other => panic!("unexpected {:?}", other),
    }
}

#[test]
fn entry_types() {
    assert_eq!(entry_type_of("dir"), EntryType::Dir);
    assert_eq!(entry_type_of("file"), EntryType::File);
    assert_eq!(entry_type_of("symlink"), EntryType::File);
}

#[test]
fn listing_puts_directories_first_by_lowercase_name() {
    let v = vec![
        entry("b.txt", EntryType::File),
        entry("src", EntryType::Dir),
        entry("A.md", EntryType::File),
        entry("Docs", EntryType::Dir),
        entry("Ärger", EntryType::File),
    ];
    let sorted = sort_entries(v);
    let names: Vec<&str> = sorted.iter().map(|e| e.name.as_str()).collect();
    assert_eq!(names, vec!["Docs", "src", "A.md", "b.txt", "Ärger"]);
}

#[test]
fn listing_keeps_equal_names_in_order() {
    let v = vec![
        entry("README", EntryType::File),
        entry("readme", EntryType::File),
        entry("Readme", EntryType::File),
    ];
    let sorted = sort_entries(v);
    let paths: Vec<&str> = sorted.iter().map(|e| e.path.as_str()).collect();
    assert_eq!(paths, vec!["p/README", "p/readme", "p/Readme"]);
    assert!(sort_entries(Vec::new()).is_empty());
}

#[test]
fn listing_ignores_case() {
    let v = vec![entry("B.txt", EntryType::File), entry("a.txt", EntryType::File), entry("Zed", EntryType::Dir), entry("alpha", EntryType::Dir)];
    let names: Vec<String> = sort_entries(v).into_iter().map(|e| e.name).collect();
    assert_eq!(names, vec!["alpha", "Zed", "a.txt", "B.txt"]);
}

fn issue(n: u64, pr: bool) -> Issue {
    Issue {
        number: n,
        title: String::new(),
        state: "open".to_string(),
        user_login: String::new(),
        body: None,
        comments: 0,
        created_at: String::new(),
        html_url: String::new(),
        pull_request: pr,
        labels: Vec::new(),
    }
}

#[test]
fn issues_and_pull_requests_are_told_apart() {
    let all = vec![issue(1, false), issue(2, true), issue(3, false), issue(4, true)];
    let prs: Vec<u64> = issues_of_kind(all, true).iter().map(|i| i.number).collect();
    assert_eq!(prs, vec![2, 4]);
    let all = vec![issue(1, false), issue(2, true), issue(3, false)];
    let plain: Vec<u64> = issues_of_kind(all, false).iter().map(|i| i.number).collect();
    assert_eq!(plain, vec![1, 3]);
    assert!(issues_of_kind(Vec::new(), true).is_empty());
}

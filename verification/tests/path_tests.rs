use githut::path::{expand_path, normalize_path, replace_all, split_lines, split_words, trim, trim_char};

#[test]
fn trim_removes_unicode_whitespace() {
    assert_eq!(trim("  a b \t\n"), "a b");
    assert_eq!(trim("\u{3000}x\u{a0}"), "x");
    assert_eq!(trim("   "), "");
}

#[test]
fn normalize_resolves_dots() {
    assert_eq!(normalize_path("/a/./b/../c"), "/a/c");
    assert_eq!(normalize_path("a//b/"), "a/b");
    assert_eq!(normalize_path("/../x"), "/x");
    assert_eq!(normalize_path("../x"), "x");
    assert_eq!(normalize_path(""), "");
}

#[test]
fn expand_tilde_alone_and_with_rest() {
    assert_eq!(expand_path("~", "/home/me", "/cwd"), "/home/me");
    assert_eq!(expand_path("~/repos", "/home/me", "/cwd"), "/home/me/repos");
    assert_eq!(expand_path("~user", "/home/me", "/cwd"), "/cwd/~user");
}

#[test]
fn expand_relative_under_cwd() {
    assert_eq!(expand_path("./a/../b", "/h", "/w"), "/w/b");
    assert_eq!(expand_path("x", "/h", "/w/"), "/w/x");
    assert_eq!(expand_path("", "/h", "/w"), "");
}

#[test]
fn expand_without_home_falls_back_to_cwd() {
    assert_eq!(expand_path("~/r", "", "/w"), "/r");
    assert_eq!(expand_path("~", "", "/w"), "/w");
}

#[test]
fn split_lines_like_str_lines() {
    assert_eq!(split_lines("a\nb\r\n\nc"), vec!["a", "b", "", "c"]);
    assert_eq!(split_lines("a\n"), vec!["a"]);
    assert_eq!(split_lines("x\r"), vec!["x\r"]);
    assert_eq!(split_lines(""), Vec::<String>::new());
    let expected: Vec<String> = "p\r\nq\n\r".lines().map(|s| s.to_string()).collect();
    assert_eq!(split_lines("p\r\nq\n\r"), expected);
}

#[test]
fn replace_all_occurrences() {
    assert_eq!(replace_all("a-b-c", "-", "+"), "a+b+c");
    assert_eq!(replace_all("aaa", "aa", "b"), "ba");
}

#[test]
fn split_words_on_whitespace() {
    assert_eq!(split_words("  src  docs\ttests "), vec!["src", "docs", "tests"]);
    assert_eq!(split_words("   "), Vec::<String>::new());
}

#[test]
fn trim_char_both_ends() {
    assert_eq!(trim_char("//src/lib//", '/'), "src/lib");
    assert_eq!(trim_char("///", '/'), "");
}

#[test]
fn normalizing_twice_changes_nothing() {
    for p in ["/a/./b/../c", "../x/./y/..", "a//b/", "/", "", "./.", "/../../q", "x/.../y"] {
        let once = normalize_path(p);
        assert_eq!(normalize_path(&once), once);
        assert!(once.split('/').all(|s| s != "." && s != ".."));
    }
    assert_eq!(normalize_path("x/.../y"), "x/.../y");
}

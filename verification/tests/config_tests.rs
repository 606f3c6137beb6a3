use githut::config::{
    config_path, default_config_contents, history_content, history_path, parse_history,
    push_history, Config, HISTORY_MAX,
};

fn strings(v: &[&str]) -> Vec<String> {
    v.iter().map(|s| s.to_string()).collect()
}

#[test]
fn paths_under_home() {
    assert_eq!(config_path(Some("/home/u")), "/home/u/.config/githut/config.toml");
    assert_eq!(history_path(Some("/home/u")), "/home/u/.config/githut/history");
    assert_eq!(config_path(None), "./.config/githut/config.toml");
}

#[test]
fn default_config_file() {
    assert_eq!(
        default_config_contents(),
        "# githut config\n# default_clone_path = \"~/repos\"\n"
    );
    let c = Config::default();
    assert!(c.default_clone_path.is_none());
}

#[test]
fn push_puts_query_first_without_duplicates() {
    let mut h = strings(&["rust", "go", "zig"]);
    push_history(&mut h, "go");
    assert_eq!(h, strings(&["go", "rust", "zig"]));
    push_history(&mut h, "nix");
    assert_eq!(h, strings(&["nix", "go", "rust", "zig"]));
}

#[test]
fn push_blank_query_changes_nothing() {
    let mut h = strings(&["a"]);
    push_history(&mut h, "  \t");
    assert_eq!(h, strings(&["a"]));
}

#[test]
fn push_twice_is_push_once() {
    let mut a = strings(&["x", "y", "x"]);
    let mut b = a.clone();
    push_history(&mut a, "y");
    push_history(&mut b, "y");
    push_history(&mut b, "y");
    assert_eq!(a, b);
    assert_eq!(a, strings(&["y", "x", "x"]));
}

#[test]
fn push_keeps_at_most_the_limit() {
    let mut h: Vec<String> = (0..60).map(|i| format!("q{}", i)).collect();
    push_history(&mut h, "new");
    assert_eq!(h.len(), HISTORY_MAX);
    assert_eq!(h[0], "new");
    assert_eq!(h[49], "q48");
}

#[test]
fn parse_skips_blank_lines() {
    assert_eq!(parse_history("a\n\n  \nb\r\nc"), strings(&["a", "b", "c"]));
    assert_eq!(parse_history(""), Vec::<String>::new());
    assert_eq!(parse_history("last\r"), strings(&["last\r"]));
}

#[test]
fn content_joins_the_first_fifty() {
    assert_eq!(history_content(&strings(&["a", "b"])), "a\nb");
    assert_eq!(history_content(&Vec::new()), "");
    let h: Vec<String> = (0..55).map(|i| format!("{}", i)).collect();
    let c = history_content(&h);
    assert_eq!(c.lines().count(), 50);
    assert!(c.ends_with("\n49"));
}

#[test]
fn history_round_trip() {
    let h = strings(&["rust tui", "  spaced  ", "ünïcode"]);
    assert_eq!(parse_history(&history_content(&h)), h);
    let long: Vec<String> = (0..70).map(|i| format!("q{}", i)).collect();
    assert_eq!(parse_history(&history_content(&long)), long[..50].to_vec());
}

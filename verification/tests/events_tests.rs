use githut::app::App;
use githut::config::Config;
use githut::events::{
    apply_background, clone_outcome, finish_delete, finish_open_profile, finish_search,
    finish_star, handle_key, Command, Key,
};
use githut::types::{
    AppState, EntryType, FileEntry, RateLimit, Repo, SearchResult, Tab, UserProfile,
};

fn repo(full: &str) -> Repo {
    let (owner, name) = full.split_once('/').unwrap();
    Repo {
        id: 7,
        full_name: full.to_string(),
        name: name.to_string(),
        owner: owner.to_string(),
        description: Some("desc".to_string()),
        language: Some("Rust".to_string()),
        stargazers_count: 12,
        forks_count: 1,
        html_url: format!("https://github.com/{}", full),
        clone_url: format!("https://github.com/{}.git", full),
        default_branch: "main".to_string(),
        archived: false,
        fork: false,
    }
}

fn app() -> App {
    App::new(Config { default_clone_path: None })
}

fn press(a: &mut App, k: Key) -> Command {
    handle_key(a, k, 1000, "/home/u", "/work")
}

fn type_text(a: &mut App, s: &str) {
    for c in s.chars() {
        let cmd = press(a, Key::Char(c));
        assert!(matches!(cmd, Command::Nothing));
    }
}

#[test]
fn typing_a_query_and_searching() {
    let mut a = app();
    type_text(&mut a, "ratatui");
    assert_eq!(a.search_query.as_str(), "ratatui");
    press(&mut a, Key::Tab);
    match press(&mut a, Key::Enter) {
        Command::Search { query, language } => {
            assert_eq!(query, "ratatui");
            assert_eq!(language.as_deref(), Some("Rust"));
        },
        other => panic!("unexpected {:?}", other),
    }
    assert!(matches!(a.state, AppState::Browsing));
    assert!(a.loading);
}

#[test]
fn enter_on_an_empty_query_does_nothing() {
    let mut a = app();
    assert!(matches!(press(&mut a, Key::Enter), Command::Nothing));
    assert!(matches!(a.state, AppState::Searching));
}

#[test]
fn escape_leaves_the_search_bar() {
    let mut a = app();
    press(&mut a, Key::Esc);
    assert!(matches!(a.state, AppState::Browsing));
    press(&mut a, Key::Char('/'));
    assert!(matches!(a.state, AppState::Searching));
}

#[test]
fn search_results_and_errors() {
    let mut a = app();
    a.loading = true;
    let rl = RateLimit { search_remaining: 9, search_limit: 10, core_remaining: 4999, core_limit: 5000 };
    finish_search(&mut a, Ok(SearchResult { repos: vec![repo("a/b"), repo("c/d")], total_count: 1234 }), Some(rl), 50);
    assert_eq!(a.results.len(), 2);
    assert_eq!(a.status_msg.as_deref(), Some("1234 results"));
    assert_eq!(a.readme_pending, Some(50));
    assert_eq!(a.rate_limit.unwrap().core_remaining, 4999);
    assert!(!a.loading);
    finish_search(&mut a, Err("timeout".to_string()), None, 60);
    assert!(matches!(&a.state, AppState::Error(m) if m == "search failed: timeout"));
    assert_eq!(a.results.len(), 2);
}

#[test]
fn any_key_dismisses_an_error() {
    let mut a = app();
    a.state = AppState::Error("x".to_string());
    press(&mut a, Key::Char('z'));
    assert!(matches!(a.state, AppState::Browsing));
    a.tab = Tab::MyRepos;
    a.state = AppState::Help;
    press(&mut a, Key::Enter);
    assert!(matches!(a.state, AppState::MyRepos));
}

#[test]
fn browsing_navigation_and_quit() {
    let mut a = app();
    a.state = AppState::Browsing;
    a.results = vec![repo("a/b"), repo("c/d")];
    press(&mut a, Key::Char('j'));
    assert_eq!(a.selected, 1);
    assert_eq!(a.readme_pending, Some(1000));
    press(&mut a, Key::Down);
    assert_eq!(a.selected, 0);
    press(&mut a, Key::Up);
    assert_eq!(a.selected, 1);
    press(&mut a, Key::Char('?'));
    assert!(matches!(a.state, AppState::Help));
    press(&mut a, Key::Char('x'));
    assert!(matches!(press(&mut a, Key::Char('q')), Command::Quit));
}

#[test]
fn open_in_browser_asks_for_the_url() {
    let mut a = app();
    a.state = AppState::Browsing;
    a.results = vec![repo("a/b")];
    match press(&mut a, Key::Char('o')) {
        Command::OpenUrl { url } => assert_eq!(url, "https://github.com/a/b"),
        other => panic!("unexpected {:?}", other),
    }
}

#[test]
fn clone_prompt_and_clone_command() {
    let mut a = App::new(Config { default_clone_path: Some("~/src".to_string()) });
    a.state = AppState::Browsing;
    a.results = vec![repo("o/r")];
    press(&mut a, Key::Char('c'));
    assert!(matches!(a.state, AppState::Cloning));
    assert_eq!(a.clone_path_input.as_str(), "/home/u/src/r");
    match press(&mut a, Key::Enter) {
        Command::Clone { url, path } => {
            assert_eq!(url, "https://github.com/o/r.git");
            assert_eq!(path, "/home/u/src/r");
        },
        other => panic!("unexpected {:?}", other),
    }
    assert!(matches!(a.state, AppState::Browsing));
    assert_eq!(a.status_msg.as_deref(), Some("cloning o/r..."));
}

#[test]
fn clone_with_an_empty_path_is_an_error() {
    let mut a = app();
    a.state = AppState::Browsing;
    a.results = vec![repo("o/r")];
    press(&mut a, Key::Char('c'));
    assert_eq!(a.clone_path_input.as_str(), "");
    assert!(matches!(press(&mut a, Key::Enter), Command::Nothing));
    assert!(matches!(&a.state, AppState::Error(m) if m == "clone path cannot be empty"));
}

#[test]
fn background_outcomes() {
    let mut a = app();
    apply_background(&mut a, clone_outcome("/x", Ok(())), 5);
    assert_eq!(a.status_msg.as_deref(), Some("cloned to /x"));
    apply_background(&mut a, clone_outcome("/x", Err("denied".to_string())), 6);
    assert!(matches!(&a.state, AppState::Error(m) if m == "clone failed: denied"));
}

#[test]
fn starring_updates_the_set_and_status() {
    let mut a = app();
    finish_star(&mut a, "o/r".to_string(), true, Ok(()), 9);
    assert!(a.is_starred(&"o/r".to_string()));
    assert_eq!(a.status_msg.as_deref(), Some("starred o/r"));
    finish_star(&mut a, "o/r".to_string(), false, Ok(()), 10);
    assert!(!a.is_starred(&"o/r".to_string()));
    assert_eq!(a.status_msg.as_deref(), Some("unstarred o/r"));
    finish_star(&mut a, "o/r".to_string(), true, Err("401".to_string()), 11);
    assert!(matches!(&a.state, AppState::Error(m) if m == "star failed: 401"));
}

#[test]
fn entering_a_directory_and_going_up() {
    let mut a = app();
    a.results = vec![repo("o/r")];
    a.state = AppState::FileBrowsing;
    a.file_entries = vec![
        FileEntry { name: "src".into(), path: "src".into(), entry_type: EntryType::Dir },
        FileEntry { name: "a.md".into(), path: "a.md".into(), entry_type: EntryType::File },
    ];
    match press(&mut a, Key::Char('l')) {
        Command::ListDir { owner, repo, path, nested } => {
            assert_eq!((owner.as_str(), repo.as_str(), path.as_str(), nested), ("o", "r", "src", true));
        },
        other => panic!("unexpected {:?}", other),
    }
    assert_eq!(a.file_path_stack, vec!["src".to_string()]);
    match press(&mut a, Key::Char('h')) {
        Command::ListDir { path, nested, .. } => {
            assert_eq!(path, "");
            assert!(!nested);
        },
        other => panic!("unexpected {:?}", other),
    }
    assert!(a.file_path_stack.is_empty());
    assert!(matches!(a.state, AppState::FileBrowsing));
    press(&mut a, Key::Char('h'));
    assert!(matches!(a.state, AppState::Browsing));
}

#[test]
fn opening_a_file_loads_it() {
    let mut a = app();
    a.results = vec![repo("o/r")];
    a.state = AppState::FileBrowsing;
    a.file_entries = vec![FileEntry { name: "a.md".into(), path: "docs/a.md".into(), entry_type: EntryType::File }];
    match press(&mut a, Key::Enter) {
        Command::LoadFile { owner, repo, path } => {
            assert_eq!((owner.as_str(), repo.as_str(), path.as_str()), ("o", "r", "docs/a.md"));
        },
        other => panic!("unexpected {:?}", other),
    }
    assert!(a.loading);
}

#[test]
fn file_browser_returns_to_where_it_was_opened() {
    let mut a = app();
    a.state = AppState::ViewingProfile;
    a.profile_repos = vec![repo("p/x")];
    match press(&mut a, Key::Char('l')) {
        Command::ListDir { owner, repo, path, nested } => {
            assert_eq!((owner.as_str(), repo.as_str(), path.as_str(), nested), ("p", "x", "", false));
        },
        other => panic!("unexpected {:?}", other),
    }
    assert!(matches!(a.state, AppState::FileBrowsing));
    press(&mut a, Key::Esc);
    assert!(matches!(a.state, AppState::ViewingProfile));
    assert!(a.prev_state.is_none());

    let mut b = app();
    b.tab = Tab::MyRepos;
    b.state = AppState::MyRepos;
    b.my_repos = vec![repo("me/y")];
    press(&mut b, Key::Enter);
    assert!(matches!(b.state, AppState::FileBrowsing));
    press(&mut b, Key::Esc);
    assert!(matches!(b.state, AppState::MyRepos));
}

#[test]
fn clone_into_a_directory_named_after_the_repository() {
    let mut a = App::new(Config { default_clone_path: Some("~/repos/".to_string()) });
    a.tab = Tab::MyRepos;
    a.state = AppState::MyRepos;
    a.my_repos = vec![repo("foo/bar")];
    press(&mut a, Key::Char('c'));
    assert_eq!(a.clone_path_input.as_str(), "/home/u/repos/bar");
    press(&mut a, Key::Esc);
    press(&mut a, Key::Char('C'));
    assert_eq!(a.sparse_path_input.as_str(), "/home/u/repos/bar");
}

fn history(v: &[&str]) -> Vec<String> {
    v.iter().map(|s| s.to_string()).collect()
}

#[test]
fn up_and_down_recall_earlier_queries() {
    let mut a = app();
    a.set_history(history(&["newest", "older", "oldest"]));
    press(&mut a, Key::Up);
    assert_eq!(a.search_query.as_str(), "newest");
    assert_eq!(a.search_query.cursor, 6);
    press(&mut a, Key::Up);
    assert_eq!(a.search_query.as_str(), "older");
    press(&mut a, Key::Up);
    press(&mut a, Key::Up);
    assert_eq!(a.search_query.as_str(), "oldest");
    press(&mut a, Key::Down);
    assert_eq!(a.search_query.as_str(), "older");
    press(&mut a, Key::Down);
    press(&mut a, Key::Down);
    assert_eq!(a.search_query.as_str(), "");
    assert_eq!(a.history_pos, None);
    press(&mut a, Key::Down);
    assert_eq!(a.search_query.as_str(), "");
}

#[test]
fn up_with_no_history_does_nothing() {
    let mut a = app();
    type_text(&mut a, "ab");
    press(&mut a, Key::Up);
    assert_eq!(a.search_query.as_str(), "ab");
}

#[test]
fn searching_records_the_query() {
    let mut a = app();
    a.set_history(history(&["zig", "nix"]));
    press(&mut a, Key::Up);
    press(&mut a, Key::Up);
    assert!(matches!(press(&mut a, Key::Enter), Command::Search { .. }));
    assert_eq!(a.history, history(&["nix", "zig"]));
    assert_eq!(a.history_pos, None);
}

#[test]
fn profile_whose_repositories_fail_shows_the_error() {
    let mut a = app();
    let p = UserProfile {
        login: "octo".to_string(),
        name: None,
        bio: None,
        followers: 1,
        following: 2,
        public_repos: 3,
        html_url: String::new(),
    };
    a.profile_loading = true;
    finish_open_profile(&mut a, Ok(p), Err("403".to_string()), 5);
    assert!(matches!(&a.state, AppState::Error(m) if m == "failed to load user repos: 403"));
    assert_eq!(a.profile_user.as_ref().unwrap().login, "octo");
    assert!(a.profile_repos.is_empty());
    assert!(!a.profile_loading);
}

#[test]
fn confirming_a_delete_removes_the_selected_repository() {
    let mut a = app();
    a.tab = Tab::MyRepos;
    a.state = AppState::ConfirmDelete;
    a.my_repos = vec![repo("me/a"), repo("me/b"), repo("me/c")];
    a.my_repos_selected = 2;
    let full = match press(&mut a, Key::Char('y')) {
        Command::Delete { owner, repo, full_name } => {
            assert_eq!((owner.as_str(), repo.as_str()), ("me", "c"));
            full_name
        },
        other => panic!("unexpected {:?}", other),
    };
    finish_delete(&mut a, &full, Ok(()), 9);
    let names: Vec<&str> = a.my_repos.iter().map(|r| r.full_name.as_str()).collect();
    assert_eq!(names, vec!["me/a", "me/b"]);
    assert_eq!(a.my_repos_selected, 1);
    assert!(matches!(a.state, AppState::MyRepos));
    assert_eq!(a.status_msg.as_deref(), Some("deleted me/c"));
    a.state = AppState::ConfirmDelete;
    press(&mut a, Key::Char('n'));
    assert!(matches!(a.state, AppState::MyRepos));
    assert_eq!(a.my_repos.len(), 2);
}

use githut::app::{App, README_DEBOUNCE_MS, STATUS_TTL_MS};
use githut::config::Config;
use githut::types::{AppState, EntryType, FileEntry, Repo, Tab};

fn repo(full: &str) -> Repo {
    let (owner, name) = full.split_once('/').unwrap();
    Repo {
        id: 1,
        full_name: full.to_string(),
        name: name.to_string(),
        owner: owner.to_string(),
        description: None,
        language: None,
        stargazers_count: 0,
        forks_count: 0,
        html_url: format!("https://github.com/{}", full),
        clone_url: format!("https://github.com/{}.git", full),
        default_branch: "main".to_string(),
        archived: false,
        fork: false,
    }
}

fn app() -> App {
    App::new(Config { default_clone_path: None })
}

#[test]
fn new_app_starts_searching() {
    let a = app();
    assert!(matches!(a.state, AppState::Searching));
    assert_eq!(a.tab, Tab::Search);
    assert!(a.results.is_empty());
    assert!(a.current_language().is_none());
    assert!(a.notifications_unread_only);
}

#[test]
fn next_and_prev_wrap_around() {
    let mut a = app();
    a.results = vec![repo("a/one"), repo("b/two"), repo("c/three")];
    a.prev(10);
    assert_eq!(a.selected, 2);
    assert_eq!(a.readme_pending, Some(10));
    a.next(20);
    assert_eq!(a.selected, 0);
    a.next(30);
    a.prev(40);
    assert_eq!(a.selected, 0);
    assert_eq!(a.selected_repo().unwrap().full_name, "a/one");
}

#[test]
fn moving_in_an_empty_list_does_nothing() {
    let mut a = app();
    a.next(5);
    a.prev(5);
    assert_eq!(a.selected, 0);
    assert_eq!(a.readme_pending, None);
    assert!(a.selected_repo().is_none());
}

#[test]
fn language_cycle_comes_back_to_any() {
    let mut a = app();
    a.cycle_language();
    assert_eq!(a.current_language(), Some("Rust"));
    assert_eq!(a.language_filter.as_deref(), Some("Rust"));
    for _ in 0..10 {
        a.cycle_language();
    }
    assert_eq!(a.current_language(), Some("Shell"));
    a.cycle_language();
    assert_eq!(a.current_language(), None);
    assert_eq!(a.language_filter, None);
}

#[test]
fn readme_fetch_waits_for_the_debounce() {
    let mut a = app();
    a.readme_pending = Some(1000);
    assert!(!a.take_readme_pending(1000 + README_DEBOUNCE_MS - 1));
    assert_eq!(a.readme_pending, Some(1000));
    assert!(a.take_readme_pending(1000 + README_DEBOUNCE_MS));
    assert_eq!(a.readme_pending, None);
    assert!(!a.take_readme_pending(5000));
}

#[test]
fn status_expires() {
    let mut a = app();
    a.set_status("hello".to_string(), 100);
    a.tick_status(100 + STATUS_TTL_MS - 1);
    assert_eq!(a.status_msg.as_deref(), Some("hello"));
    a.tick_status(100 + STATUS_TTL_MS);
    assert_eq!(a.status_msg, None);
    assert_eq!(a.status_set_at, None);
}

#[test]
fn error_state_holds_the_message() {
    let mut a = app();
    a.loading = true;
    a.set_error("boom".to_string());
    assert!(matches!(&a.state, AppState::Error(m) if m == "boom"));
    assert!(!a.loading);
}

#[test]
fn star_then_unstar() {
    let mut a = app();
    let n = "o/r".to_string();
    let other = "x/y".to_string();
    a.add_starred(other.clone());
    assert!(!a.is_starred(&n));
    a.add_starred(n.clone());
    a.add_starred(n.clone());
    assert!(a.is_starred(&n));
    a.remove_starred(&n);
    assert!(!a.is_starred(&n));
    assert!(a.is_starred(&other));
}

#[test]
fn active_repo_follows_the_tab_and_profile() {
    let mut a = app();
    a.results = vec![repo("s/r")];
    a.my_repos = vec![repo("me/mine")];
    a.profile_repos = vec![repo("p/theirs")];
    assert_eq!(a.active_repo().unwrap().full_name, "s/r");
    a.tab = Tab::MyRepos;
    assert_eq!(a.active_repo().unwrap().full_name, "me/mine");
    a.state = AppState::ViewingProfile;
    assert_eq!(a.active_repo().unwrap().full_name, "p/theirs");
    a.state = AppState::FileBrowsing;
    a.prev_state = Some(AppState::ViewingProfile);
    assert_eq!(a.active_repo().unwrap().full_name, "p/theirs");
}

#[test]
fn clone_path_is_prefilled_from_the_config() {
    let mut a = App::new(Config { default_clone_path: Some(" ~/repos ".to_string()) });
    a.prefill_clone_path("/home/u", "/w");
    assert_eq!(a.clone_path_input.as_str(), "/home/u/repos");
    assert_eq!(a.clone_path_input.cursor, "/home/u/repos".len());
    a.results = vec![repo("foo/bar")];
    a.prefill_clone_path("/home/u", "/w");
    assert_eq!(a.clone_path_input.as_str(), "/home/u/repos/bar");
    let mut b = app();
    b.results = vec![repo("foo/bar")];
    b.prefill_sparse_path("/home/u", "/w");
    assert_eq!(b.sparse_path_input.as_str(), "");
}

#[test]
fn file_browser_helpers() {
    let mut a = app();
    a.file_entries = vec![
        FileEntry { name: "src".into(), path: "src".into(), entry_type: EntryType::Dir },
        FileEntry { name: "a.md".into(), path: "a.md".into(), entry_type: EntryType::File },
    ];
    a.file_next();
    assert_eq!(a.selected_entry().unwrap().name, "a.md");
    a.file_next();
    assert_eq!(a.file_selected, 0);
    a.file_prev();
    assert_eq!(a.file_selected, 1);
    assert_eq!(a.current_file_path(), "");
    a.file_path_stack = vec!["src".into(), "src/x".into()];
    assert_eq!(a.current_file_path(), "src/x");
}

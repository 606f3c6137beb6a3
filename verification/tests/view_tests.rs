use githut::app::App;
use githut::config::Config;
use githut::markdown::{MdColor, MdSpan};
use githut::types::{
    AppState, EntryType, FileEntry, Issue, IssueComment, IssueTab, Notification, RateLimit, Repo,
    Tab, UserProfile,
};
use githut::view::{
    date_of, ends_with, entry_line, files_pane_title, help_overlay_lines, is_markdown_name,
    issue_detail_view, issue_preview_lines, issue_row_lines, issues_list_title, join_strs,
    notification_row_lines, notifications_list_title, overlay, owned_row_lines, pad_to,
    preview_pane_placeholder, profile_header_lines, profile_repos_list_title, rate_limit_text,
    readme_pane_placeholder, readme_pane_title, result_row_lines, results_list_title, screen,
    search_bar, status_bar, tab_bar, take_chars, Overlay, Screen,
};

fn app() -> App {
    App::new(Config { default_clone_path: None })
}

fn repo(full: &str) -> Repo {
    let (owner, name) = full.split_once('/').unwrap();
    Repo {
        id: 3,
        full_name: full.to_string(),
        name: name.to_string(),
        owner: owner.to_string(),
        description: Some("A".repeat(70)),
        language: None,
        stargazers_count: 5,
        forks_count: 0,
        html_url: String::new(),
        clone_url: String::new(),
        default_branch: "main".to_string(),
        archived: true,
        fork: true,
    }
}

fn line_text(l: &[MdSpan]) -> String {
    l.iter().map(|s| s.text.as_str()).collect()
}

fn issue(n: u64, state: &str, labels: &[&str]) -> Issue {
    Issue {
        number: n,
        title: "Fix the thing".to_string(),
        state: state.to_string(),
        user_login: "alice".to_string(),
        body: Some("line one\nline two".to_string()),
        comments: 3,
        created_at: "2024-05-06T07:08:09Z".to_string(),
        html_url: String::new(),
        pull_request: false,
        labels: labels.iter().map(|s| s.to_string()).collect(),
    }
}

#[test]
fn text_helpers() {
    assert_eq!(pad_to("ab", 4), "ab  ");
    assert_eq!(pad_to("abcdef", 4), "abcdef");
    assert_eq!(pad_to("é", 3), "é  ");
    assert_eq!(take_chars("héllo", 2), "hé");
    assert_eq!(take_chars("hi", 5), "hi");
    assert_eq!(date_of("2024-01-02T03:04:05Z"), "2024-01-02");
    assert_eq!(date_of("short"), "");
    assert_eq!(date_of("2024-01-0é-x"), "");
    assert_eq!(date_of("2024-01-02"), "2024-01-02");
    assert_eq!(join_strs(&vec!["a".to_string(), "b".to_string()], ", "), "a, b");
    assert_eq!(join_strs(&Vec::new(), ", "), "");
    assert!(ends_with("notes.md", ".md"));
    assert!(!ends_with("md", ".md"));
    assert!(is_markdown_name("README.markdown"));
    assert!(!is_markdown_name("main.rs"));
}

#[test]
fn status_bar_hints_when_no_message() {
    let mut a = app();
    let bar = status_bar(&a);
    assert!(bar.message.is_none());
    assert!(bar.rate.is_none());
    assert_eq!(line_text(&bar.hints), " Enter:search  Tab:language filter  Esc:cancel");
    assert_eq!(bar.hints[1].style.fg, Some(MdColor::White));
    assert!(bar.hints[1].style.bold);
    assert_eq!(bar.hints[2].style.fg, Some(MdColor::DarkGray));
    a.state = AppState::ConfirmDelete;
    assert_eq!(line_text(&status_bar(&a).hints), " y:confirm delete  n / Esc:cancel");
    a.state = AppState::Previewing;
    assert_eq!(line_text(&status_bar(&a).hints), " q:quit");
}

#[test]
fn status_bar_message_and_rate() {
    let mut a = app();
    a.rate_limit = Some(RateLimit { search_remaining: 28, search_limit: 30, core_remaining: 4990, core_limit: 5000 });
    a.status_msg = Some("12 results".to_string());
    let bar = status_bar(&a);
    assert_eq!(bar.message.as_deref(), Some("12 results"));
    assert_eq!(bar.rate.as_deref(), Some(" search:28/30 core:4990/5000 "));
    assert!(bar.hints.is_empty());
    assert_eq!(rate_limit_text(&a.rate_limit.unwrap()), " search:28/30 core:4990/5000 ");
}

#[test]
fn tab_bar_marks_the_active_tab() {
    let mut a = app();
    assert_eq!(line_text(&tab_bar(&a)), " [1:Search]   2:My Repos    3:Notifications   ");
    a.state = AppState::ViewingNotifications;
    assert_eq!(line_text(&tab_bar(&a)), "  1:Search    2:My Repos   [3:Notifications]  ");
    assert_eq!(tab_bar(&a)[5].style.fg, Some(MdColor::Cyan));
}

#[test]
fn search_bar_texts() {
    let mut a = app();
    let b = search_bar(&a);
    assert!(b.focused);
    assert_eq!(b.title, "Search");
    assert_eq!(b.text, "_");
    a.state = AppState::Browsing;
    assert_eq!(search_bar(&a).text, "Press / to search...");
    a.cycle_language();
    a.search_query.insert('x');
    let b = search_bar(&a);
    assert_eq!(b.title, "Search [Rust]");
    assert_eq!(b.text, "x");
}

#[test]
fn screens_follow_the_state() {
    let mut a = app();
    assert_eq!(screen(&a), Screen::Search);
    a.tab = Tab::MyRepos;
    a.state = AppState::MyRepos;
    assert_eq!(screen(&a), Screen::MyRepos);
    a.state = AppState::ViewingIssue;
    assert_eq!(screen(&a), Screen::IssueDetail);
    a.state = AppState::SearchingCode;
    assert_eq!(screen(&a), Screen::CodeSearch);
    a.state = AppState::Help;
    assert_eq!(screen(&a), Screen::MyRepos);
}

#[test]
fn overlays_follow_the_state() {
    let mut a = app();
    assert!(matches!(overlay(&a), Overlay::Nothing));
    a.state = AppState::Cloning;
    a.clone_path_input.insert('/');
    match overlay(&a) {
        Overlay::Input { title, text } => {
            assert_eq!(title, "Clone path: (Enter to confirm, Esc to cancel)");
            assert_eq!(text, "/_");
        },
        _ => panic!("expected an input overlay"),
    }
    a.state = AppState::ConfirmDelete;
    match overlay(&a) {
        Overlay::Confirm(q) => assert_eq!(q, "Delete this repo? (y/n)"),
        _ => panic!("expected a question"),
    }
    a.my_repos = vec![repo("me/old")];
    match overlay(&a) {
        Overlay::Confirm(q) => assert_eq!(q, "Delete me/old? (y/n)"),
        _ => panic!("expected a question"),
    }
    a.state = AppState::SparseCloning;
    match overlay(&a) {
        Overlay::Sparse { title, hint, .. } => {
            assert_eq!(title, "Sparse clone — step 1/2: path");
            assert_eq!(hint, "Enter destination path, then press Enter");
        },
        _ => panic!("expected the sparse prompt"),
    }
    a.state = AppState::Error("bad".to_string());
    assert!(matches!(overlay(&a), Overlay::Error(m) if m == "bad"));
}

#[test]
fn titles_and_placeholders() {
    let mut a = app();
    assert_eq!(results_list_title(&a), "Results (0)");
    assert_eq!(readme_pane_title(&a), "README");
    assert_eq!(readme_pane_placeholder(&a), "Search for repos to get started");
    a.loading = true;
    a.results = vec![repo("o/r")];
    assert_eq!(results_list_title(&a), "Results (1) [loading...]");
    assert_eq!(readme_pane_title(&a), "README — o/r");
    assert_eq!(readme_pane_placeholder(&a), "Loading README...");
    assert_eq!(profile_repos_list_title(&a), "user's repos (0)");
    assert_eq!(files_pane_title(&a), "Files — o/r");
    a.file_path_stack = vec!["src".to_string()];
    assert_eq!(files_pane_title(&a), "Files — o/r/src");
    assert_eq!(preview_pane_placeholder(&a), "Loading...");
    a.loading = false;
    a.file_entries = vec![FileEntry { name: "d".into(), path: "src/d".into(), entry_type: EntryType::Dir }];
    assert_eq!(preview_pane_placeholder(&a), "Press l to enter directory");
    a.issues = vec![issue(1, "open", &[])];
    assert_eq!(issues_list_title(&a), "o/r  [Issues] PRs    Open (1)");
    a.issue_tab = IssueTab::PullRequests;
    a.issues_loading = true;
    assert_eq!(issues_list_title(&a), "o/r   Issues [PRs]   Open (1) loading...");
    assert_eq!(notifications_list_title(&a), "Notifications [Unread] (0)");
}

#[test]
fn repository_rows() {
    let r = repo("owner/name");
    let lines = result_row_lines(&r, true, "5");
    assert_eq!(lines.len(), 2);
    assert_eq!(lines[0][0].text, "★ ");
    assert_eq!(lines[0][1].text, format!("{:<38}", "owner/name"));
    assert_eq!(lines[0][2].text, format!("{:<12}", "—"));
    assert_eq!(lines[0][3].text, "5");
    assert_eq!(line_text(&lines[1]), format!("  {}", "A".repeat(60)));
    let lines = owned_row_lines(&r, false, "1.2k");
    assert_eq!(lines[0][0].text, "  ");
    assert_eq!(lines[0][1].text, format!("{:<38}", "name"));
    assert_eq!(lines[1][0].text, "  [archived] [fork] ");
    assert_eq!(lines[1][1].text, "A".repeat(60));
}

#[test]
fn file_entry_lines() {
    let d = FileEntry { name: "src".into(), path: "src".into(), entry_type: EntryType::Dir };
    let f = FileEntry { name: "a.rs".into(), path: "a.rs".into(), entry_type: EntryType::File };
    assert_eq!(line_text(&entry_line(&d)), "▶ src");
    assert_eq!(entry_line(&d)[0].style.fg, Some(MdColor::Cyan));
    assert_eq!(line_text(&entry_line(&f)), " a.rs");
    assert_eq!(entry_line(&f)[1].style.fg, Some(MdColor::White));
}

#[test]
fn issue_rows_and_panes() {
    let lines = issue_row_lines(&issue(42, "open", &["bug", "ui"]));
    assert_eq!(line_text(&lines[0]), "● #42    Fix the thing [bug, ui]");
    assert_eq!(lines[0][0].style.fg, Some(MdColor::Green));
    assert_eq!(line_text(&lines[1]), "  @alice  💬 3  2024-05-06");
    let closed = issue_row_lines(&issue(7, "closed", &[]));
    assert_eq!(line_text(&closed[0]), "○ #7     Fix the thing");
    assert_eq!(closed[0][0].style.fg, Some(MdColor::Red));

    let mut a = app();
    assert_eq!(line_text(&issue_preview_lines(&a)[0]), "No issues");
    a.issues = vec![issue(42, "open", &[])];
    let p = issue_preview_lines(&a);
    let texts: Vec<String> = p.iter().map(|l| line_text(l)).collect();
    assert_eq!(texts, vec!["#42 Fix the thing", "@alice  open  2024-05-06", "", "line one", "line two"]);

    assert!(issue_detail_view(&a).is_none());
    a.current_issue = Some(issue(42, "closed", &[]));
    a.issue_comments = vec![IssueComment {
        id: 1,
        user_login: "bob".to_string(),
        body: "agreed".to_string(),
        created_at: "2024-06-01T00:00:00Z".to_string(),
    }];
    let (title, lines) = issue_detail_view(&a).unwrap();
    assert_eq!(title, "#42 — closed — 1 comment(s)");
    let texts: Vec<String> = lines.iter().map(|l| line_text(l)).collect();
    assert_eq!(
        texts,
        vec![
            "Fix the thing",
            "@alice  closed  2024-05-06",
            "",
            "line one",
            "line two",
            "",
            "── comments ──",
            "",
            "@bob  2024-06-01",
            "agreed",
        ]
    );
}

#[test]
fn preview_keeps_thirty_body_lines() {
    let mut a = app();
    let mut i = issue(1, "open", &[]);
    i.body = Some((0..40).map(|n| n.to_string()).collect::<Vec<_>>().join("\n"));
    a.issues = vec![i];
    assert_eq!(issue_preview_lines(&a).len(), 3 + 30);
    a.issues[0].body = None;
    assert_eq!(line_text(&issue_preview_lines(&a)[3]), "(no description)");
}

#[test]
fn notification_rows() {
    let n = Notification {
        id: "1".to_string(),
        repo_full_name: "o/r".to_string(),
        subject_title: "Bump deps".to_string(),
        subject_type: "PullRequest".to_string(),
        reason: "review_requested".to_string(),
        unread: true,
        updated_at: "2024-02-03T00:00:00Z".to_string(),
        subject_url: None,
    };
    let lines = notification_row_lines(&n);
    assert_eq!(line_text(&lines[0]), "● [PullRequest ]  Bump deps");
    assert_eq!(lines[0][1].style.fg, Some(MdColor::Magenta));
    assert!(lines[0][2].style.bold);
    assert_eq!(line_text(&lines[1]), "  o/r  reason: review_requested  2024-02-03");
}

#[test]
fn profile_header_texts() {
    let mut a = app();
    a.profile_loading = true;
    assert_eq!(line_text(&profile_header_lines(&a)[0]), "Loading profile...");
    a.profile_user = Some(UserProfile {
        login: "octo".to_string(),
        name: Some("Octo Cat".to_string()),
        bio: Some("b".repeat(90)),
        followers: 10,
        following: 2,
        public_repos: 8,
        html_url: String::new(),
    });
    let lines = profile_header_lines(&a);
    assert_eq!(line_text(&lines[0]), "octo  (Octo Cat)");
    assert_eq!(line_text(&lines[1]), "repos: 8  followers: 10  following: 2");
    assert_eq!(line_text(&lines[2]), "b".repeat(80));
    assert_eq!(profile_repos_list_title(&a), "octo's repos (0)");
}

#[test]
fn help_overlay_texts() {
    let lines = help_overlay_lines();
    assert_eq!(lines.len(), 51);
    assert_eq!(line_text(&lines[0]), "search");
    assert_eq!(line_text(&lines[1]), format!("  {:<14}focus search input", "/"));
    assert_eq!(line_text(&lines[5]), "");
    assert_eq!(line_text(&lines[50]), format!("  {:<14}quit", "q"));
}

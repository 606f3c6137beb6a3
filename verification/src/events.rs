//! Key handling. A key press changes the state and may ask for outside
//! work (a request, opening a URL, a clone); that work is a `Command`. The
//! caller performs it and hands the outcome to the matching `finish_*`
//! function, which may ask for further work in turn.
use vstd::prelude::*;
use crate::app::{get_at, opt_at, wrap_next, wrap_prev, App, starred_has};
use crate::config::{eq_str, push_history, pushed_history, views};
use crate::input::TextInput;
use crate::path::{string_push, trim, trimmed, is_blank, expanded_path};
use crate::text::{byte_len, byte_offset, utf8_width};
use crate::types::{
    AppState, EntryType, FileEntry, Issue, IssueComment, IssueFilter, IssueTab, Notification,
    RateLimit, Repo, SearchResult, SparseStep, Tab, UserProfile, filter_after,
};

verus! {

/// A key press, as far as the interface tells keys apart.
#[derive(Debug, Clone, Copy, PartialEq, Eq, Structural)]
pub enum Key {
    Char(char),
    Enter,
    Esc,
    Tab,
    Backspace,
    Delete,
    Left,
    Right,
    Up,
    Down,
    Home,
    End,
    Other,
}

/// Outside work that a key press or an outcome asks for. Each variant names
/// the function that takes its outcome.
#[derive(Debug)]
pub enum Command {
    /// Nothing to do.
    Nothing,
    /// Leave the application.
    Quit,
    /// Search repositories and fetch the rate limit; then `finish_search`.
    Search { query: String, language: Option<String> },
    /// List the user's repositories; then `finish_my_repos`.
    ListMyRepos { refresh: bool },
    /// Fetch the README of `login/login`; then `finish_profile_readme`.
    ProfileReadme { login: String },
    /// List a directory (`path` empty for the root); then `finish_dir`.
    ListDir { owner: String, repo: String, path: String, nested: bool },
    /// Fetch one file's text; then `finish_file`.
    LoadFile { owner: String, repo: String, path: String },
    /// Open a URL in the browser; then `finish_open`.
    OpenUrl { url: String },
    /// Star (or with `star` false, unstar) a repository; then `finish_star`.
    Star { owner: String, repo: String, full_name: String, star: bool },
    /// Fork a repository; then `finish_fork`.
    Fork { owner: String, repo: String, full_name: String },
    /// Fetch a user's profile and repositories; then `finish_open_profile`.
    OpenProfile { login: String },
    /// List issues or pull requests; then `finish_issues` with the same `purpose`.
    ListIssues {
        owner: String,
        repo: String,
        filter: IssueFilter,
        pull_requests: bool,
        purpose: IssueListPurpose,
    },
    /// List notifications; then `finish_notifications`.
    ListNotifications { unread_only: bool },
    /// Clone in the background; its outcome message comes from `clone_outcome`.
    Clone { url: String, path: String },
    /// Sparse clone in the background; the outcome message comes from `sparse_clone_outcome`.
    SparseClone { url: String, path: String, branch: String, dirs: Vec<String> },
    /// Fetch a file to save; then `finish_download`.
    DownloadFile { owner: String, repo: String, path: String, dest: String },
    /// Write a file in the background; the outcome message comes from `save_outcome`.
    SaveFile { dest: String, content: String },
    /// Rename a repository; then `finish_rename`.
    Rename { owner: String, repo: String, new_name: String },
    /// Delete a repository; then `finish_delete`.
    Delete { owner: String, repo: String, full_name: String },
    /// Archive or unarchive a repository; then `finish_archive`.
    SetArchived { owner: String, repo: String, archived: bool, full_name: String },
    /// Close an issue; then `finish_close_issue`.
    CloseIssue { owner: String, repo: String, number: u64 },
    /// Fetch an issue's comments; then `finish_comments`.
    LoadComments { owner: String, repo: String, number: u64 },
    /// Create an issue; then `finish_create_issue`.
    CreateIssue { owner: String, repo: String, title: String, body: String },
    /// Mark one notification read; then `finish_mark_read`.
    MarkRead { id: String },
    /// Mark all notifications read; then `finish_mark_all_read`.
    MarkAllRead,
    /// Fetch a README and whether it is starred; then `finish_readme_fetch`.
    FetchReadme { owner: String, repo: String, full_name: String },
}

/// Why issues are being listed, which decides what happens with the list.
#[derive(Debug, Clone, Copy, PartialEq, Eq, Structural)]
pub enum IssueListPurpose {
    /// Opening the issues view.
    Open,
    /// The issues view switched tab or filter.
    Reload,
    /// An issue was just created.
    AfterCreate,
}

// ───────────────────────── text helpers ─────────────────────────

/// `a` followed by `b`.
pub fn concat(a: &str, b: &str) -> (r: String)
    ensures
        r@ == a@ + b@,
{
    let mut r = String::from_str(a);
    r.append(b);
    r
}

/// Decimal digits of `n`.
pub open spec fn decimal(n: nat) -> Seq<char>
    decreases n,
{
    if n < 10 {
        seq![digit_char(n)]
    } else {
        decimal(n / 10).push(digit_char(n % 10))
    }
}

pub open spec fn digit_char(d: nat) -> char {
    ((0x30 + d) as u32) as char
}

/// The decimal form of `n`, as `to_string` writes it.
pub fn u64_to_decimal(n: u64) -> (r: String)
    ensures
        r@ == decimal(n as nat),
    decreases n,
{
    let d = (n % 10) as u32;
    let c = char_of_digit(d);
    if n < 10 {
        let mut r = String::new();
        string_push(&mut r, c);
        proof {
            assert(r@ =~= seq![digit_char(n as nat)]);
        }
        r
    } else {
        let mut r = u64_to_decimal(n / 10);
        string_push(&mut r, c);
        r
    }
}

fn char_of_digit(d: u32) -> (c: char)
    requires
        d < 10,
    ensures
        c == digit_char(d as nat),
{
    match d {
        0 => '0',
        1 => '1',
        2 => '2',
        3 => '3',
        4 => '4',
        5 => '5',
        6 => '6',
        7 => '7',
        8 => '8',
        _ => '9',
    }
}

// ───────────────────────── text fields ─────────────────────────

/// The keys that edit a text field.
pub open spec fn is_edit_key(k: Key) -> bool {
    ||| k is Char
    ||| k is Backspace
    ||| k is Delete
    ||| k is Left
    ||| k is Right
    ||| k is Home
    ||| k is End
}

/// `b` is the text field `a` after key `k`: a character is inserted at the
/// cursor, Backspace and Delete remove the character before and at the
/// cursor, the arrows, Home and End move the cursor; other keys change nothing.
pub open spec fn edited(a: TextInput, b: TextInput, k: Key) -> bool {
    &&& b.wf()
    &&& match k {
        Key::Char(c) => b.value@ == a.value@.insert(a.pos(), c) && b.cursor == a.cursor
            + utf8_width(c),
        Key::Backspace => if a.cursor == 0 {
            b == a
        } else {
            b.value@ == a.value@.remove(a.pos() - 1) && b.cursor == byte_offset(
                a.value@,
                a.pos() - 1,
            )
        },
        Key::Delete => if a.cursor >= byte_len(a.value@) {
            b == a
        } else {
            b.value@ == a.value@.remove(a.pos()) && b.cursor == a.cursor
        },
        Key::Left => b.value == a.value && if a.cursor == 0 {
            b.cursor == 0
        } else {
            b.cursor == byte_offset(a.value@, a.pos() - 1)
        },
        Key::Right => b.value == a.value && if a.cursor >= byte_len(a.value@) {
            b.cursor == a.cursor
        } else {
            b.cursor == byte_offset(a.value@, a.pos() + 1)
        },
        Key::Home => b.value == a.value && b.cursor == 0,
        Key::End => b.value == a.value && b.cursor == byte_len(a.value@),
        _ => b == a,
    }
}

/// Applies an editing key to a text field.
pub fn edit_field(input: &mut TextInput, k: Key)
    requires
        old(input).wf(),
    ensures
        edited(*old(input), *final(input), k),
{
    match k {
        Key::Char(c) => input.insert(c),
        Key::Backspace => input.backspace(),
        Key::Delete => input.delete(),
        Key::Left => input.move_left(),
        Key::Right => input.move_right(),
        Key::Home => input.move_home(),
        Key::End => input.move_end(),
        _ => {},
    }
}

// ───────────────────────── starting outside work ─────────────────────────

/// `b` has started a repository search for the query and language filter of
/// `a`, and recorded the query as the most recent in the history.
pub open spec fn search_begun(a: App, b: App, cmd: Command) -> bool {
    &&& b == (App {
        loading: true,
        state: AppState::Browsing,
        selected: 0,
        readme_content: None,
        history: b.history,
        history_pos: None,
        ..a
    })
    &&& views(b.history@) == pushed_history(views(a.history@), a.search_query.value@)
    &&& cmd matches Command::Search { query, language } && query@ == a.search_query.value@
        && language == a.language_filter
}

/// Starts a repository search.
pub fn begin_search(app: &mut App) -> (cmd: Command)
    ensures
        search_begun(*old(app), *final(app), cmd),
{
    let query = String::from_str(app.search_query.as_str());
    let language = crate::types::clone_opt_string(&app.language_filter);
    push_history(&mut app.history, query.as_str());
    app.history_pos = None;
    app.loading = true;
    app.state = AppState::Browsing;
    app.selected = 0;
    app.readme_content = None;
    Command::Search { query, language }
}

/// The status message after a search: the total count and " results".
pub open spec fn results_message(total: u64) -> Seq<char> {
    decimal(total as nat) + " results"@
}

/// Takes the outcome of `Command::Search` and of the rate-limit request.
pub fn finish_search(
    app: &mut App,
    result: Result<SearchResult, String>,
    rate: Option<RateLimit>,
    now: u64,
)
    ensures
        match result {
            Ok(r) => {
                &&& final(app).results == r.repos
                &&& final(app).status_msg matches Some(m) && m@ == results_message(r.total_count)
                &&& final(app).status_set_at == Some(now)
                &&& final(app).readme_pending == Some(now)
                &&& final(app).state == old(app).state
            },
            Err(e) => {
                &&& final(app).state matches AppState::Error(m) && m@ == "search failed: "@ + e@
                &&& final(app).results == old(app).results
                &&& final(app).status_msg == old(app).status_msg
                &&& final(app).status_set_at == old(app).status_set_at
                &&& final(app).readme_pending == old(app).readme_pending
            },
        },
        final(app).rate_limit == (if rate is Some {
            rate
        } else {
            old(app).rate_limit
        }),
        !final(app).loading,
        *final(app) == (App {
            results: final(app).results,
            status_msg: final(app).status_msg,
            status_set_at: final(app).status_set_at,
            readme_pending: final(app).readme_pending,
            state: final(app).state,
            rate_limit: final(app).rate_limit,
            loading: false,
            ..*old(app)
        }),
{
    match result {
        Ok(r) => {
            app.results = r.repos;
            let n = u64_to_decimal(r.total_count);
            let msg = concat(n.as_str(), " results");
            app.set_status(msg, now);
            app.readme_pending = Some(now);
        },
        Err(e) => {
            app.set_error(concat("search failed: ", e.as_str()));
        },
    }
    match rate {
        Some(rl) => {
            app.rate_limit = Some(rl);
        },
        None => {},
    }
    app.loading = false;
}

/// The login whose profile README is shown on the repos tab: the owner of
/// the first repository, when one of the repositories is named after it.
pub open spec fn profile_login(repos: Seq<Repo>) -> Option<String> {
    if repos.len() > 0 && exists|i: int| 0 <= i < repos.len() && #[trigger] repos[i].name@
        == repos[0].owner@ {
        Some(repos[0].owner)
    } else {
        None
    }
}

/// The README request for the profile repository, if there is one.
pub open spec fn profile_readme_cmd(repos: Seq<Repo>, cmd: Command) -> bool {
    match profile_login(repos) {
        Some(l) => cmd matches Command::ProfileReadme { login } && login == l,
        None => cmd is Nothing,
    }
}

fn profile_readme_request(repos: &Vec<Repo>) -> (cmd: Command)
    ensures
        profile_readme_cmd(repos@, cmd),
{
    if repos.len() == 0 {
        return Command::Nothing;
    }
    let login = repos[0].owner.clone();
    let mut i: usize = 0;
    while i < repos.len()
        invariant
            repos@.len() > 0,
            login == repos@[0].owner,
            i <= repos.len(),
            forall|j: int| 0 <= j < i ==> repos@[j].name@ != repos@[0].owner@,
        decreases repos.len() - i,
    {
        if repos[i].name == login {
            return Command::ProfileReadme { login };
        }
        i = i + 1;
    }
    Command::Nothing
}

/// `b` has switched to the repos tab from `a`: it loads the repositories if
/// there are none yet, otherwise it asks for the profile README.
pub open spec fn repos_switch_begun(a: App, b: App, cmd: Command) -> bool {
    let switched = App {
        tab: Tab::MyRepos,
        state: AppState::MyRepos,
        readme_content: None,
        readme_scroll: 0,
        ..a
    };
    if a.my_repos@.len() == 0 {
        &&& b == (App { my_repos_loading: true, ..switched })
        &&& cmd matches Command::ListMyRepos { refresh } && !refresh
    } else {
        b == switched && profile_readme_cmd(a.my_repos@, cmd)
    }
}

/// Switches to the repos tab.
pub fn switch_to_my_repos(app: &mut App) -> (cmd: Command)
    ensures
        repos_switch_begun(*old(app), *final(app), cmd),
{
    app.tab = Tab::MyRepos;
    app.state = AppState::MyRepos;
    app.readme_content = None;
    app.readme_scroll = 0;
    if app.my_repos.len() == 0 {
        app.my_repos_loading = true;
        return Command::ListMyRepos { refresh: false };
    }
    profile_readme_request(&app.my_repos)
}

/// Takes the outcome of `Command::ListMyRepos`.
pub fn finish_my_repos(app: &mut App, refresh: bool, result: Result<Vec<Repo>, String>) -> (cmd:
    Command)
    ensures
        match result {
            Ok(repos) => {
                &&& final(app).my_repos == repos
                &&& final(app).state == old(app).state
                &&& final(app).my_repos_selected == (if refresh {
                    0
                } else {
                    old(app).my_repos_selected
                })
            },
            Err(e) => {
                &&& final(app).state matches AppState::Error(m) && m@
                    == "failed to load your repos: "@ + e@
                &&& final(app).my_repos == old(app).my_repos
                &&& final(app).my_repos_selected == old(app).my_repos_selected
            },
        },
        !final(app).my_repos_loading,
        final(app).loading == (old(app).loading && result is Ok),
        *final(app) == (App {
            my_repos: final(app).my_repos,
            my_repos_selected: final(app).my_repos_selected,
            state: final(app).state,
            loading: final(app).loading,
            my_repos_loading: false,
            ..*old(app)
        }),
        refresh ==> cmd is Nothing,
        !refresh ==> profile_readme_cmd(final(app).my_repos@, cmd),
{
    match result {
        Ok(repos) => {
            app.my_repos = repos;
            if refresh {
                app.my_repos_selected = 0;
            }
        },
        Err(e) => {
            app.set_error(concat("failed to load your repos: ", e.as_str()));
        },
    }
    app.my_repos_loading = false;
    if refresh {
        Command::Nothing
    } else {
        profile_readme_request(&app.my_repos)
    }
}

/// Takes the outcome of `Command::ProfileReadme`.
pub fn finish_profile_readme(app: &mut App, result: Result<String, String>)
    ensures
        match result {
            Ok(md) => *final(app) == (App { readme_content: Some(md), ..*old(app) }),
            Err(_) => *final(app) == *old(app),
        },
{
    match result {
        Ok(md) => {
            app.readme_content = Some(md);
        },
        Err(_) => {},
    }
}

/// `b` has opened the file browser of `r` from `a`, to come back to `prev`.
pub open spec fn files_begun(a: App, b: App, r: Repo, prev: Option<AppState>, cmd: Command) -> bool {
    &&& b == (App {
        file_entries: b.file_entries,
        file_selected: 0,
        file_path_stack: b.file_path_stack,
        file_content: None,
        file_scroll: 0,
        loading: true,
        prev_state: prev,
        state: AppState::FileBrowsing,
        ..a
    })
    &&& b.file_entries@.len() == 0
    &&& b.file_path_stack@.len() == 0
    &&& cmd matches Command::ListDir { owner, repo, path, nested } && owner == r.owner && repo
        == r.name && path@.len() == 0 && !nested
}

/// Opens the file browser at the root of `r`.
pub fn begin_files(app: &mut App, r: &Repo, from_profile: bool) -> (cmd: Command)
    ensures
        files_begun(
            *old(app),
            *final(app),
            *r,
            if from_profile {
                Some(AppState::ViewingProfile)
            } else {
                None
            },
            cmd,
        ),
{
    let owner = r.owner.clone();
    let repo = r.name.clone();
    app.file_entries = Vec::new();
    app.file_selected = 0;
    app.file_path_stack = Vec::new();
    app.file_content = None;
    app.file_scroll = 0;
    app.loading = true;
    app.prev_state = if from_profile {
        Some(AppState::ViewingProfile)
    } else {
        None
    };
    app.state = AppState::FileBrowsing;
    Command::ListDir { owner, repo, path: String::new(), nested: false }
}

/// Takes the outcome of `Command::ListDir`.
pub fn finish_dir(app: &mut App, nested: bool, result: Result<Vec<FileEntry>, String>)
    ensures
        match result {
            Ok(entries) => *final(app) == (App { file_entries: entries, loading: false, ..*old(app) }),
            Err(e) => shows_error(
                *old(app),
                *final(app),
                if nested {
                    "failed to load dir: "@
                } else {
                    "failed to load files: "@
                },
                e@,
            ),
        },
{
    match result {
        Ok(entries) => {
            app.file_entries = entries;
        },
        Err(e) => {
            let prefix = if nested {
                "failed to load dir: "
            } else {
                "failed to load files: "
            };
            app.set_error(concat(prefix, e.as_str()));
        },
    }
    app.loading = false;
}

/// Takes the outcome of `Command::LoadFile`.
pub fn finish_file(app: &mut App, result: Result<String, String>)
    ensures
        match result {
            Ok(content) => *final(app) == (App {
                file_content: Some(content),
                file_scroll: 0,
                loading: false,
                ..*old(app)
            }),
            Err(e) => shows_error(*old(app), *final(app), "failed to load file: "@, e@),
        },
{
    match result {
        Ok(content) => {
            app.file_content = Some(content);
            app.file_scroll = 0;
        },
        Err(e) => {
            app.set_error(concat("failed to load file: ", e.as_str()));
        },
    }
    app.loading = false;
}

/// `b` is `a` showing the error `prefix` followed by `e`.
pub open spec fn shows_error(a: App, b: App, prefix: Seq<char>, e: Seq<char>) -> bool {
    &&& b == (App { state: b.state, loading: false, ..a })
    &&& b.state matches AppState::Error(m) && m@ == prefix + e
}

/// `b` is `a` with the status message `msg` set at `now`.
pub open spec fn shows_status(a: App, b: App, msg: Seq<char>, now: u64) -> bool {
    &&& b == (App { status_msg: b.status_msg, status_set_at: Some(now), ..a })
    &&& b.status_msg matches Some(m) && m@ == msg
}

/// Takes the outcome of `Command::OpenUrl`.
pub fn finish_open(app: &mut App, result: Result<(), String>)
    ensures
        match result {
            Ok(_) => *final(app) == *old(app),
            Err(e) => shows_error(*old(app), *final(app), "failed to open browser: "@, e@),
        },
{
    match result {
        Ok(_) => {},
        Err(e) => app.set_error(concat("failed to open browser: ", e.as_str())),
    }
}

/// Takes the outcome of `Command::Star`.
#[verifier::rlimit(50)]
pub fn finish_star(app: &mut App, full_name: String, star: bool, result: Result<(), String>, now: u64)
    ensures
        match result {
            Ok(_) => {
                &&& views(final(app).starred@).to_set() == (if star {
                    views(old(app).starred@).to_set().insert(full_name@)
                } else {
                    views(old(app).starred@).to_set().remove(full_name@)
                })
                &&& shows_status(
                    App { starred: final(app).starred, ..*old(app) },
                    *final(app),
                    (if star {
                        "starred "@
                    } else {
                        "unstarred "@
                    }) + full_name@,
                    now,
                )
            },
            Err(e) => shows_error(
                *old(app),
                *final(app),
                if star {
                    "star failed: "@
                } else {
                    "unstar failed: "@
                },
                e@,
            ),
        },
{
    match result {
        Ok(_) => {
            let msg = concat(
                if star {
                    "starred "
                } else {
                    "unstarred "
                },
                full_name.as_str(),
            );
            if star {
                app.add_starred(full_name);
            } else {
                app.remove_starred(&full_name);
            }
            app.set_status(msg, now);
        },
        Err(e) => {
            let prefix = if star {
                "star failed: "
            } else {
                "unstar failed: "
            };
            app.set_error(concat(prefix, e.as_str()));
        },
    }
}

/// Takes the outcome of `Command::Fork`.
pub fn finish_fork(app: &mut App, full_name: &str, result: Result<(), String>, now: u64)
    ensures
        match result {
            Ok(_) => shows_status(
                *old(app),
                *final(app),
                "forked "@ + full_name@ + " — check your GitHub"@,
                now,
            ),
            Err(e) => shows_error(*old(app), *final(app), "fork failed: "@, e@),
        },
{
    match result {
        Ok(_) => {
            let m = concat("forked ", full_name);
            app.set_status(concat(m.as_str(), " — check your GitHub"), now);
        },
        Err(e) => app.set_error(concat("fork failed: ", e.as_str())),
    }
}

/// `b` has started loading the profile of `login` from `a`.
pub open spec fn profile_begun(a: App, b: App, login: Seq<char>, cmd: Command) -> bool {
    &&& b == (App {
        profile_loading: true,
        profile_user: None,
        profile_repos: b.profile_repos,
        profile_repos_selected: 0,
        readme_content: None,
        readme_scroll: 0,
        ..a
    })
    &&& b.profile_repos@.len() == 0
    &&& cmd matches Command::OpenProfile { login: l } && l@ == login
}

/// Starts loading the profile of `login`.
pub fn begin_profile(app: &mut App, login: String) -> (cmd: Command)
    ensures
        profile_begun(*old(app), *final(app), login@, cmd),
{
    app.profile_loading = true;
    app.profile_user = None;
    app.profile_repos = Vec::new();
    app.profile_repos_selected = 0;
    app.readme_content = None;
    app.readme_scroll = 0;
    Command::OpenProfile { login }
}

/// Takes the outcome of `Command::OpenProfile`: the profile and the
/// repositories of the user. When either fails, the error is shown; a
/// profile that did load is kept, with no repositories.
pub fn finish_open_profile(
    app: &mut App,
    profile: Result<UserProfile, String>,
    repos: Result<Vec<Repo>, String>,
    now: u64,
)
    ensures
        match profile {
            Err(e) => shows_error(
                *old(app),
                App { profile_loading: old(app).profile_loading, ..*final(app) },
                "failed to load profile: "@,
                e@,
            ) && !final(app).profile_loading,
            Ok(p) => match repos {
                Ok(rs) => *final(app) == (App {
                    profile_user: Some(p),
                    profile_repos: rs,
                    readme_pending: Some(now),
                    profile_loading: false,
                    state: AppState::ViewingProfile,
                    ..*old(app)
                }),
                Err(e) => {
                    &&& *final(app) == (App {
                        profile_user: Some(p),
                        profile_repos: final(app).profile_repos,
                        profile_loading: false,
                        loading: false,
                        state: final(app).state,
                        ..*old(app)
                    })
                    &&& final(app).profile_repos@.len() == 0
                    &&& final(app).state matches AppState::Error(m) && m@
                        == "failed to load user repos: "@ + e@
                },
            },
        },
{
    match profile {
        Ok(p) => {
            app.profile_user = Some(p);
        },
        Err(e) => {
            app.set_error(concat("failed to load profile: ", e.as_str()));
            app.profile_loading = false;
            return;
        },
    }
    match repos {
        Ok(rs) => {
            app.profile_repos = rs;
            app.readme_pending = Some(now);
        },
        Err(e) => {
            app.profile_repos = Vec::new();
            app.profile_loading = false;
            app.set_error(concat("failed to load user repos: ", e.as_str()));
            return;
        },
    }
    app.profile_loading = false;
    app.state = AppState::ViewingProfile;
}

/// The issue list request for `r` with the current tab and filter of `a`.
pub open spec fn issues_request(a: App, r: Repo, purpose: IssueListPurpose, cmd: Command) -> bool {
    cmd matches Command::ListIssues { owner, repo, filter, pull_requests, purpose: p } && owner
        == r.owner && repo == r.name && filter == a.issue_filter && pull_requests == (a.issue_tab
        == IssueTab::PullRequests) && p == purpose
}

/// `b` has started opening the issues of `r` from `a`.
pub open spec fn issues_begun(a: App, b: App, r: Repo, cmd: Command) -> bool {
    &&& b == (App {
        issues_loading: true,
        issues: b.issues,
        issues_selected: 0,
        current_issue: None,
        issue_comments: b.issue_comments,
        issue_scroll: 0,
        ..a
    })
    &&& b.issues@.len() == 0
    &&& b.issue_comments@.len() == 0
    &&& issues_request(a, r, IssueListPurpose::Open, cmd)
}

fn issues_command(app: &App, r: &Repo, purpose: IssueListPurpose) -> (cmd: Command)
    ensures
        issues_request(*app, *r, purpose, cmd),
{
    Command::ListIssues {
        owner: r.owner.clone(),
        repo: r.name.clone(),
        filter: app.issue_filter,
        pull_requests: app.issue_tab == IssueTab::PullRequests,
        purpose,
    }
}

/// Starts opening the issues view of `r`.
pub fn begin_issues(app: &mut App, r: &Repo) -> (cmd: Command)
    ensures
        issues_begun(*old(app), *final(app), *r, cmd),
{
    app.issues_loading = true;
    app.issues = Vec::new();
    app.issues_selected = 0;
    app.current_issue = None;
    app.issue_comments = Vec::new();
    app.issue_scroll = 0;
    issues_command(app, r, IssueListPurpose::Open)
}

/// The issues view after the list outcome `result` for `purpose`.
pub open spec fn issues_finished(
    a: App,
    b: App,
    purpose: IssueListPurpose,
    result: Result<Vec<Issue>, String>,
) -> bool {
    match purpose {
        IssueListPurpose::Open => match result {
            Ok(v) => b == (App {
                issues: v,
                issues_loading: false,
                state: AppState::ViewingIssues,
                ..a
            }),
            Err(e) => shows_error(a, App { issues_loading: a.issues_loading, ..b }, "failed to load issues: "@, e@)
                && !b.issues_loading,
        },
        IssueListPurpose::Reload => match result {
            Ok(v) => b == (App { issues: v, issues_loading: false, ..a }),
            Err(e) => shows_error(a, App { issues_loading: a.issues_loading, ..b }, "failed to load: "@, e@)
                && !b.issues_loading,
        },
        IssueListPurpose::AfterCreate => match result {
            Ok(v) => b == (App {
                issues: v,
                issues_selected: 0,
                state: AppState::ViewingIssues,
                ..a
            }),
            Err(_) => b == (App { state: AppState::ViewingIssues, ..a }),
        },
    }
}

fn finish_issues_open(app: &mut App, result: Result<Vec<Issue>, String>)
    ensures
        issues_finished(*old(app), *final(app), IssueListPurpose::Open, result),
{
    match result {
        Ok(v) => app.issues = v,
        Err(e) => {
            app.set_error(concat("failed to load issues: ", e.as_str()));
            app.issues_loading = false;
            return;
        },
    }
    app.issues_loading = false;
    app.state = AppState::ViewingIssues;
}

fn finish_issues_reload(app: &mut App, result: Result<Vec<Issue>, String>)
    ensures
        issues_finished(*old(app), *final(app), IssueListPurpose::Reload, result),
{
    match result {
        Ok(v) => app.issues = v,
        Err(e) => app.set_error(concat("failed to load: ", e.as_str())),
    }
    app.issues_loading = false;
}

fn finish_issues_after_create(app: &mut App, result: Result<Vec<Issue>, String>)
    ensures
        issues_finished(*old(app), *final(app), IssueListPurpose::AfterCreate, result),
{
    match result {
        Ok(v) => {
            app.issues = v;
            app.issues_selected = 0;
        },
        Err(_) => {},
    }
    app.state = AppState::ViewingIssues;
}

/// Takes the outcome of `Command::ListIssues`.
pub fn finish_issues(app: &mut App, purpose: IssueListPurpose, result: Result<Vec<Issue>, String>)
    ensures
        issues_finished(*old(app), *final(app), purpose, result),
{
    match purpose {
        IssueListPurpose::Open => finish_issues_open(app, result),
        IssueListPurpose::Reload => finish_issues_reload(app, result),
        IssueListPurpose::AfterCreate => finish_issues_after_create(app, result),
    }
}

/// `b` has started opening the notifications from `a`.
pub open spec fn notifications_begun(a: App, b: App, cmd: Command) -> bool {
    &&& b == (App {
        notifications_loading: true,
        notifications: b.notifications,
        notifications_selected: 0,
        ..a
    })
    &&& b.notifications@.len() == 0
    &&& cmd matches Command::ListNotifications { unread_only } && unread_only
        == a.notifications_unread_only
}

/// Starts opening the notifications view.
pub fn begin_notifications(app: &mut App) -> (cmd: Command)
    ensures
        notifications_begun(*old(app), *final(app), cmd),
{
    app.notifications_loading = true;
    app.notifications = Vec::new();
    app.notifications_selected = 0;
    Command::ListNotifications { unread_only: app.notifications_unread_only }
}

/// Takes the outcome of `Command::ListNotifications`.
pub fn finish_notifications(app: &mut App, result: Result<Vec<Notification>, String>)
    ensures
        match result {
            Ok(v) => *final(app) == (App {
                notifications: v,
                notifications_loading: false,
                state: AppState::ViewingNotifications,
                ..*old(app)
            }),
            Err(e) => shows_error(
                *old(app),
                App { notifications_loading: old(app).notifications_loading, ..*final(app) },
                "failed to load notifications: "@,
                e@,
            ) && !final(app).notifications_loading,
        },
{
    match result {
        Ok(v) => app.notifications = v,
        Err(e) => {
            app.set_error(concat("failed to load notifications: ", e.as_str()));
            app.notifications_loading = false;
            return;
        },
    }
    app.notifications_loading = false;
    app.state = AppState::ViewingNotifications;
}

// ───────────────────────── background work ─────────────────────────

/// The message a finished background job reports: `ok_prefix` and `subject`
/// on success, `err_prefix` and the error otherwise.
pub open spec fn outcome_message(
    ok_prefix: Seq<char>,
    subject: Seq<char>,
    err_prefix: Seq<char>,
    result: Result<(), String>,
    msg: Result<String, String>,
) -> bool {
    match result {
        Ok(_) => msg matches Ok(m) && m@ == ok_prefix + subject,
        Err(e) => msg matches Err(m) && m@ == err_prefix + e@,
    }
}

fn outcome(ok_prefix: &str, subject: &str, err_prefix: &str, result: Result<(), String>) -> (msg:
    Result<String, String>)
    ensures
        outcome_message(ok_prefix@, subject@, err_prefix@, result, msg),
{
    match result {
        Ok(_) => Ok(concat(ok_prefix, subject)),
        Err(e) => Err(concat(err_prefix, e.as_str())),
    }
}

/// The report of a background clone into `path`.
pub fn clone_outcome(path: &str, result: Result<(), String>) -> (msg: Result<String, String>)
    ensures
        outcome_message("cloned to "@, path@, "clone failed: "@, result, msg),
{
    outcome("cloned to ", path, "clone failed: ", result)
}

/// The report of a background sparse clone into `path`.
pub fn sparse_clone_outcome(path: &str, result: Result<(), String>) -> (msg: Result<String, String>)
    ensures
        outcome_message("sparse cloned to "@, path@, "sparse clone failed: "@, result, msg),
{
    outcome("sparse cloned to ", path, "sparse clone failed: ", result)
}

/// The report of saving a file to `dest`.
pub fn save_outcome(dest: &str, result: Result<(), String>) -> (msg: Result<String, String>)
    ensures
        outcome_message("saved to "@, dest@, "save failed: "@, result, msg),
{
    outcome("saved to ", dest, "save failed: ", result)
}

/// Shows the report of a background job: a success as the status, a
/// failure as an error.
pub fn apply_background(app: &mut App, msg: Result<String, String>, now: u64)
    ensures
        match msg {
            Ok(m) => *final(app) == (App {
                status_msg: Some(m),
                status_set_at: Some(now),
                ..*old(app)
            }),
            Err(m) => *final(app) == (App { state: AppState::Error(m), loading: false, ..*old(app) }),
        },
{
    match msg {
        Ok(m) => app.set_status(m, now),
        Err(m) => app.set_error(m),
    }
}

/// Takes the outcome of `Command::DownloadFile`: the content is handed on to
/// be saved at `dest`.
pub fn finish_download(app: &mut App, dest: String, result: Result<String, String>) -> (cmd: Command)
    ensures
        match result {
            Ok(content) => {
                &&& *final(app) == *old(app)
                &&& cmd matches Command::SaveFile { dest: d, content: c } && d == dest && c == content
            },
            Err(e) => shows_error(*old(app), *final(app), "download failed: "@, e@) && cmd is Nothing,
        },
{
    match result {
        Ok(content) => Command::SaveFile { dest, content },
        Err(e) => {
            app.set_error(concat("download failed: ", e.as_str()));
            Command::Nothing
        },
    }
}

/// Takes the outcome of `Command::Rename`: the selected repository gets the
/// new name and full name `owner/new_name`.
pub fn finish_rename(
    app: &mut App,
    owner: &str,
    new_name: &str,
    result: Result<(), String>,
    now: u64,
)
    ensures
        match result {
            Ok(_) => {
                let i = old(app).my_repos_selected as int;
                &&& final(app).my_repos@.len() == old(app).my_repos@.len()
                &&& forall|j: int|
                    0 <= j < old(app).my_repos@.len() && j != i ==> #[trigger] final(app).my_repos@[j]
                        == old(app).my_repos@[j]
                &&& 0 <= i < old(app).my_repos@.len() ==> {
                    let r = final(app).my_repos@[i];
                    &&& r.name@ == new_name@
                    &&& r.full_name@ == owner@ + "/"@ + new_name@
                    &&& r == (Repo { name: r.name, full_name: r.full_name, ..old(app).my_repos@[i] })
                }
                &&& shows_status(
                    App {
                        my_repos: final(app).my_repos,
                        state: AppState::MyRepos,
                        ..*old(app)
                    },
                    *final(app),
                    "renamed to "@ + new_name@,
                    now,
                )
            },
            Err(e) => shows_error(*old(app), *final(app), "rename failed: "@, e@),
        },
{
    match result {
        Ok(_) => {
            let i = app.my_repos_selected;
            if i < app.my_repos.len() {
                let mut r = app.my_repos[i].clone();
                r.name = String::from_str(new_name);
                let with_slash = concat(owner, "/");
                r.full_name = concat(with_slash.as_str(), new_name);
                app.my_repos.set(i, r);
            }
            app.set_status(concat("renamed to ", new_name), now);
            app.state = AppState::MyRepos;
        },
        Err(e) => app.set_error(concat("rename failed: ", e.as_str())),
    }
}

/// `b` is `a` after the selected repository was deleted: it leaves the
/// list, the selection moves up when it was past the new end, the list is
/// shown again with the status message.
pub open spec fn delete_done(a: App, b: App, full_name: Seq<char>, now: u64) -> bool {
    let i = a.my_repos_selected as int;
    let rest = a.my_repos@.remove(i);
    &&& b.my_repos@ == rest
    &&& b.my_repos_selected == (if i > 0 && i >= rest.len() {
        i - 1
    } else {
        i
    })
    &&& shows_status(
        App {
            my_repos: b.my_repos,
            my_repos_selected: b.my_repos_selected,
            state: AppState::MyRepos,
            ..a
        },
        b,
        "deleted "@ + full_name,
        now,
    )
}

/// Takes the outcome of `Command::Delete`: the selected repository leaves
/// the list, and the selection moves up when it was past the new end.
#[verifier::rlimit(40)]
pub fn finish_delete(app: &mut App, full_name: &str, result: Result<(), String>, now: u64)
    requires
        result is Ok ==> old(app).my_repos_selected < old(app).my_repos@.len(),
    ensures
        match result {
            Ok(_) => delete_done(*old(app), *final(app), full_name@, now),
            Err(e) => shows_error(*old(app), *final(app), "delete failed: "@, e@),
        },
{
    match result {
        Ok(_) => {
            app.my_repos.remove(app.my_repos_selected);
            if app.my_repos_selected > 0 && app.my_repos_selected >= app.my_repos.len() {
                app.my_repos_selected = app.my_repos_selected - 1;
            }
            app.set_status(concat("deleted ", full_name), now);
            app.state = AppState::MyRepos;
        },
        Err(e) => app.set_error(concat("delete failed: ", e.as_str())),
    }
}

/// Takes the outcome of `Command::SetArchived`: the selected repository
/// takes the new archived flag.
pub fn finish_archive(
    app: &mut App,
    archived: bool,
    full_name: &str,
    result: Result<(), String>,
    now: u64,
)
    ensures
        match result {
            Ok(_) => {
                let i = old(app).my_repos_selected as int;
                &&& final(app).my_repos@ == (if 0 <= i < old(app).my_repos@.len() {
                    old(app).my_repos@.update(
                        i,
                        Repo { archived: archived, ..old(app).my_repos@[i] },
                    )
                } else {
                    old(app).my_repos@
                })
                &&& shows_status(
                    App { my_repos: final(app).my_repos, ..*old(app) },
                    *final(app),
                    (if archived {
                        "archived "@
                    } else {
                        "unarchived "@
                    }) + full_name@,
                    now,
                )
            },
            Err(e) => shows_error(*old(app), *final(app), "archive failed: "@, e@),
        },
{
    match result {
        Ok(_) => {
            let i = app.my_repos_selected;
            if i < app.my_repos.len() {
                let mut r = app.my_repos[i].clone();
                r.archived = archived;
                app.my_repos.set(i, r);
            }
            let action = if archived {
                "archived "
            } else {
                "unarchived "
            };
            app.set_status(concat(action, full_name), now);
        },
        Err(e) => app.set_error(concat("archive failed: ", e.as_str())),
    }
}

/// Takes the outcome of `Command::CloseIssue`: the selected issue is marked closed.
pub fn finish_close_issue(app: &mut App, number: u64, result: Result<(), String>, now: u64)
    ensures
        match result {
            Ok(_) => {
                let i = old(app).issues_selected as int;
                &&& final(app).issues@.len() == old(app).issues@.len()
                &&& forall|j: int|
                    0 <= j < old(app).issues@.len() && j != i ==> #[trigger] final(app).issues@[j]
                        == old(app).issues@[j]
                &&& 0 <= i < old(app).issues@.len() ==> {
                    let x = final(app).issues@[i];
                    &&& x.state@ == "closed"@
                    &&& x.labels@ == old(app).issues@[i].labels@
                    &&& x == (Issue { state: x.state, labels: x.labels, ..old(app).issues@[i] })
                }
                &&& shows_status(
                    App { issues: final(app).issues, ..*old(app) },
                    *final(app),
                    "closed #"@ + decimal(number as nat),
                    now,
                )
            },
            Err(e) => shows_error(*old(app), *final(app), "close failed: "@, e@),
        },
{
    match result {
        Ok(_) => {
            let i = app.issues_selected;
            if i < app.issues.len() {
                let mut x = app.issues[i].clone();
                x.state = String::from_str("closed");
                app.issues.set(i, x);
            }
            let n = u64_to_decimal(number);
            app.set_status(concat("closed #", n.as_str()), now);
        },
        Err(e) => app.set_error(concat("close failed: ", e.as_str())),
    }
}

/// Takes the outcome of `Command::LoadComments`; the issue view opens either way.
pub fn finish_comments(app: &mut App, result: Result<Vec<IssueComment>, String>)
    ensures
        match result {
            Ok(v) => *final(app) == (App {
                issue_comments: v,
                state: AppState::ViewingIssue,
                ..*old(app)
            }),
            Err(_) => *final(app) == (App {
                state: AppState::ViewingIssue,
                loading: false,
                ..*old(app)
            }),
        },
{
    match result {
        Ok(v) => app.issue_comments = v,
        Err(e) => {
            // the error is replaced by the issue view right below
            app.set_error(concat("failed to load comments: ", e.as_str()));
        },
    }
    app.state = AppState::ViewingIssue;
}

/// Takes the outcome of `Command::CreateIssue`: on success the list of
/// `owner/repo` is fetched again.
pub fn finish_create_issue(
    app: &mut App,
    owner: String,
    repo: String,
    result: Result<u64, String>,
    now: u64,
) -> (cmd: Command)
    ensures
        match result {
            Ok(n) => {
                &&& shows_status(*old(app), *final(app), "created issue #"@ + decimal(n as nat), now)
                &&& cmd matches Command::ListIssues {
                    owner: o,
                    repo: r,
                    filter,
                    pull_requests,
                    purpose,
                } && o == owner && r == repo && filter == old(app).issue_filter && pull_requests
                    == (old(app).issue_tab == IssueTab::PullRequests) && purpose
                    == IssueListPurpose::AfterCreate
            },
            Err(e) => shows_error(*old(app), *final(app), "create issue failed: "@, e@)
                && cmd is Nothing,
        },
{
    match result {
        Ok(n) => {
            let d = u64_to_decimal(n);
            app.set_status(concat("created issue #", d.as_str()), now);
            Command::ListIssues {
                owner,
                repo,
                filter: app.issue_filter,
                pull_requests: app.issue_tab == IssueTab::PullRequests,
                purpose: IssueListPurpose::AfterCreate,
            }
        },
        Err(e) => {
            app.set_error(concat("create issue failed: ", e.as_str()));
            Command::Nothing
        },
    }
}

/// Takes the outcome of `Command::MarkRead`: the selected notification is read.
pub fn finish_mark_read(app: &mut App, result: Result<(), String>, now: u64)
    ensures
        match result {
            Ok(_) => {
                let i = old(app).notifications_selected as int;
                &&& final(app).notifications@ == (if 0 <= i < old(app).notifications@.len() {
                    old(app).notifications@.update(
                        i,
                        Notification { unread: false, ..old(app).notifications@[i] },
                    )
                } else {
                    old(app).notifications@
                })
                &&& shows_status(
                    App { notifications: final(app).notifications, ..*old(app) },
                    *final(app),
                    "marked as read"@,
                    now,
                )
            },
            Err(e) => shows_error(*old(app), *final(app), "mark read failed: "@, e@),
        },
{
    match result {
        Ok(_) => {
            let i = app.notifications_selected;
            if i < app.notifications.len() {
                let x = &app.notifications[i];
                let y = Notification {
                    id: x.id.clone(),
                    repo_full_name: x.repo_full_name.clone(),
                    subject_title: x.subject_title.clone(),
                    subject_type: x.subject_type.clone(),
                    reason: x.reason.clone(),
                    unread: false,
                    updated_at: x.updated_at.clone(),
                    subject_url: crate::types::clone_opt_string(&x.subject_url),
                };
                app.notifications.set(i, y);
            }
            app.set_status(String::from_str("marked as read"), now);
        },
        Err(e) => app.set_error(concat("mark read failed: ", e.as_str())),
    }
}

/// Takes the outcome of `Command::MarkAllRead`: every notification is read.
pub fn finish_mark_all_read(app: &mut App, result: Result<(), String>, now: u64)
    ensures
        match result {
            Ok(_) => {
                &&& final(app).notifications@.len() == old(app).notifications@.len()
                &&& forall|j: int|
                    0 <= j < old(app).notifications@.len() ==> #[trigger] final(app).notifications@[j]
                        == (Notification {
                        unread: false,
                        ..old(app).notifications@[j]
                    })
                &&& shows_status(
                    App { notifications: final(app).notifications, ..*old(app) },
                    *final(app),
                    "all marked as read"@,
                    now,
                )
            },
            Err(e) => shows_error(*old(app), *final(app), "mark all read failed: "@, e@),
        },
{
    match result {
        Ok(_) => {
            let ghost before = app.notifications@;
            let ghost a0 = *app;
            let mut i: usize = 0;
            while i < app.notifications.len()
                invariant
                    *app == (App { notifications: app.notifications, ..a0 }),
                    app.notifications@.len() == before.len(),
                    i <= before.len(),
                    forall|j: int|
                        0 <= j < i ==> #[trigger] app.notifications@[j] == (Notification {
                            unread: false,
                            ..before[j]
                        }),
                    forall|j: int| i <= j < before.len() ==> #[trigger] app.notifications@[j] == before[j],
                decreases before.len() - i,
            {
                let x = &app.notifications[i];
                let y = Notification {
                    id: x.id.clone(),
                    repo_full_name: x.repo_full_name.clone(),
                    subject_title: x.subject_title.clone(),
                    subject_type: x.subject_type.clone(),
                    reason: x.reason.clone(),
                    unread: false,
                    updated_at: x.updated_at.clone(),
                    subject_url: crate::types::clone_opt_string(&x.subject_url),
                };
                app.notifications.set(i, y);
                i = i + 1;
            }
            app.set_status(String::from_str("all marked as read"), now);
        },
        Err(e) => app.set_error(concat("mark all read failed: ", e.as_str())),
    }
}

/// When the README fetch that list moves scheduled is due and a repository
/// is active: stop it being pending, show loading and ask for the README
/// and the star of the active repository.
pub fn begin_readme_fetch(app: &mut App, now: u64) -> (cmd: Command)
    ensures
        (old(app).readme_pending matches Some(t) && now >= t && now - t
            >= crate::app::README_DEBOUNCE_MS) ==> match old(app).active() {
            Some(r) => {
                &&& *final(app) == (App { readme_pending: None, loading: true, ..*old(app) })
                &&& cmd matches Command::FetchReadme { owner, repo, full_name } && owner == r.owner
                    && repo == r.name && full_name == r.full_name
            },
            None => *final(app) == (App { readme_pending: None, ..*old(app) }) && cmd is Nothing,
        },
        !(old(app).readme_pending matches Some(t) && now >= t && now - t
            >= crate::app::README_DEBOUNCE_MS) ==> *final(app) == *old(app) && cmd is Nothing,
{
    if !app.take_readme_pending(now) {
        return Command::Nothing;
    }
    match app.active_repo() {
        Some(r) => {
            let owner = r.owner.clone();
            let repo = r.name.clone();
            let full_name = r.full_name.clone();
            app.loading = true;
            Command::FetchReadme { owner, repo, full_name }
        },
        None => Command::Nothing,
    }
}

/// Takes the outcome of `Command::FetchReadme`.
pub fn finish_readme_fetch(
    app: &mut App,
    full_name: String,
    readme: Result<String, String>,
    starred: bool,
)
    ensures
        final(app).readme_content == (match readme {
            Ok(md) => Some(md),
            Err(_) => old(app).readme_content,
        }),
        views(final(app).starred@).to_set() == (if starred {
            views(old(app).starred@).to_set().insert(full_name@)
        } else {
            views(old(app).starred@).to_set()
        }),
        !starred ==> final(app).starred == old(app).starred,
        *final(app) == (App {
            readme_content: final(app).readme_content,
            starred: final(app).starred,
            loading: false,
            ..*old(app)
        }),
{
    match readme {
        Ok(md) => app.readme_content = Some(md),
        Err(_) => {},
    }
    if starred {
        app.add_starred(full_name);
    }
    app.loading = false;
}

// ───────────────────────── key handling ─────────────────────────

/// `x + 1`, staying at the top of the range.
pub open spec fn inc_sat(x: u16) -> u16 {
    if x < u16::MAX {
        (x + 1) as u16
    } else {
        x
    }
}

/// `x - 1`, staying at zero.
pub open spec fn dec_sat(x: u16) -> u16 {
    if x > 0 {
        (x - 1) as u16
    } else {
        x
    }
}

fn sat_inc(x: u16) -> (r: u16)
    ensures
        r == inc_sat(x),
{
    if x < u16::MAX {
        x + 1
    } else {
        x
    }
}

fn sat_dec(x: u16) -> (r: u16)
    ensures
        r == dec_sat(x),
{
    if x > 0 {
        x - 1
    } else {
        x
    }
}

/// Nothing changes and nothing is asked for.
pub open spec fn no_op(a: App, b: App, cmd: Command) -> bool {
    b == a && cmd is Nothing
}

/// Only the state changes, to `s`.
pub open spec fn goes_to(a: App, b: App, s: AppState, cmd: Command) -> bool {
    b == (App { state: s, ..a }) && cmd is Nothing
}

/// `t` holds exactly the text `s`, with the cursor at its end.
pub open spec fn holds_text(t: TextInput, s: Seq<char>) -> bool {
    &&& t.wf()
    &&& t.value@ == s
    &&& t.pos() == s.len()
}

/// A text field holding `s` with the cursor at its end.
pub fn text_input_of(s: &String) -> (t: TextInput)
    ensures
        holds_text(t, s@),
{
    let n = crate::input::string_len(s);
    let t = TextInput { value: s.clone(), cursor: n };
    proof {
        crate::text::lemma_byte_offset_ends(t.value@);
        crate::text::lemma_char_pos(t.value@, t.value@.len() as int);
    }
    t
}

/// `b` is `a` after moving to the next language of the cycle.
pub open spec fn language_cycled(a: App, b: App) -> bool {
    &&& b == (App {
        language_idx: ((a.language_idx + 1) % (crate::app::LANGUAGE_COUNT as int)) as usize,
        language_filter: b.language_filter,
        ..a
    })
    &&& match b.language_filter {
        Some(s) => crate::app::language_name(b.language_idx as int) == Some(s@),
        None => crate::app::language_name(b.language_idx as int) is None,
    }
}

/// What a key does while the search box has the focus. Digits `2` and `3`
/// switch views even here; other characters are typed.
pub open spec fn searching_step(a: App, b: App, key: Key, cmd: Command) -> bool {
    if key == Key::Esc {
        goes_to(a, b, AppState::Browsing, cmd)
    } else if key == Key::Char('2') {
        repos_switch_begun(a, b, cmd)
    } else if key == Key::Char('3') {
        notifications_begun(a, b, cmd)
    } else if key == Key::Enter {
        if a.search_query.value@.len() > 0 {
            search_begun(a, b, cmd)
        } else {
            no_op(a, b, cmd)
        }
    } else if key == Key::Tab {
        language_cycled(a, b) && cmd is Nothing
    } else if key == Key::Up {
        history_up(a, b) && cmd is Nothing
    } else if key == Key::Down {
        history_down(a, b) && cmd is Nothing
    } else {
        &&& b == (App { search_query: b.search_query, ..a })
        &&& edited(a.search_query, b.search_query, key)
        &&& cmd is Nothing
    }
}

/// Up in the search box: the next older history entry replaces the query
/// (the most recent one first); past the oldest, nothing changes.
pub open spec fn history_up(a: App, b: App) -> bool {
    let next: int = match a.history_pos {
        Some(i) => i + 1,
        None => 0,
    };
    if next < a.history@.len() {
        &&& b == (App { search_query: b.search_query, history_pos: Some(next as usize), ..a })
        &&& holds_text(b.search_query, a.history@[next]@)
    } else {
        b == a
    }
}

/// Down in the search box: the next newer history entry replaces the query;
/// from the most recent one, the box is emptied and no entry is recalled.
pub open spec fn history_down(a: App, b: App) -> bool {
    match a.history_pos {
        None => b == a,
        Some(i) => if i == 0 {
            &&& b == (App { search_query: b.search_query, history_pos: None, ..a })
            &&& holds_text(b.search_query, Seq::empty())
        } else if i - 1 < a.history@.len() {
            &&& b == (App { search_query: b.search_query, history_pos: Some((i - 1) as usize), ..a })
            &&& holds_text(b.search_query, a.history@[i - 1]@)
        } else {
            b == a
        },
    }
}

fn recall_older(app: &mut App)
    ensures
        history_up(*old(app), *final(app)),
{
    let len = app.history.len();
    let next: usize = match app.history_pos {
        Some(i) => if i < len {
            i + 1
        } else {
            len
        },
        None => 0,
    };
    if next < len {
        app.search_query = text_input_of(&app.history[next]);
        app.history_pos = Some(next);
    }
}

fn recall_newer(app: &mut App)
    ensures
        history_down(*old(app), *final(app)),
{
    match app.history_pos {
        None => {},
        Some(i) => {
            if i == 0 {
                let empty = String::new();
                app.search_query = text_input_of(&empty);
                app.history_pos = None;
            } else if i - 1 < app.history.len() {
                app.search_query = text_input_of(&app.history[i - 1]);
                app.history_pos = Some(i - 1);
            }
        },
    }
}

fn handle_searching(app: &mut App, key: Key) -> (cmd: Command)
    requires
        old(app).wf(),
    ensures
        final(app).wf(),
        searching_step(*old(app), *final(app), key, cmd),
{
    if key == Key::Esc {
        app.state = AppState::Browsing;
        Command::Nothing
    } else if key == Key::Char('2') {
        switch_to_my_repos(app)
    } else if key == Key::Char('3') {
        begin_notifications(app)
    } else if key == Key::Enter {
        if !app.search_query.is_empty() {
            begin_search(app)
        } else {
            Command::Nothing
        }
    } else if key == Key::Tab {
        app.cycle_language();
        Command::Nothing
    } else if key == Key::Up {
        recall_older(app);
        Command::Nothing
    } else if key == Key::Down {
        recall_newer(app);
        Command::Nothing
    } else {
        edit_field(&mut app.search_query, key);
        Command::Nothing
    }
}

/// `b` has opened the clone prompt of `a`, pre-filled with the default path.
pub open spec fn clone_prompt_opened(a: App, b: App, home: Seq<char>, cwd: Seq<char>) -> bool {
    &&& b == (App {
        clone_path_input: b.clone_path_input,
        state: AppState::Cloning,
        ..a
    })
    &&& crate::app::prefilled(
        b.clone_path_input,
        a.config,
        crate::app::active_name(a),
        home,
        cwd,
    )
}

/// `b` has opened the sparse clone prompt of `a` at its first step.
pub open spec fn sparse_prompt_opened(a: App, b: App, home: Seq<char>, cwd: Seq<char>) -> bool {
    &&& b == (App {
        sparse_path_input: b.sparse_path_input,
        sparse_dirs_input: b.sparse_dirs_input,
        sparse_step: SparseStep::Path,
        state: AppState::SparseCloning,
        ..a
    })
    &&& crate::app::prefilled(
        b.sparse_path_input,
        a.config,
        crate::app::active_name(a),
        home,
        cwd,
    )
    &&& holds_text(b.sparse_dirs_input, Seq::empty())
}

/// A request to open `url`.
pub open spec fn opens(cmd: Command, url: String) -> bool {
    cmd matches Command::OpenUrl { url: u } && u == url
}

/// The keys of the results list that do not act on the selected repository.
pub open spec fn is_nav_key(key: Key) -> bool {
    key == Key::Char('q') || key == Key::Char('1') || key == Key::Char('2') || key == Key::Char('/')
        || key == Key::Char('j') || key == Key::Down || key == Key::Char('k') || key == Key::Up
        || key == Key::Char('J') || key == Key::Char('K') || key == Key::Tab || key == Key::Char('r')
        || key == Key::Char('?')
}

/// What a key does on the search results list.
pub open spec fn browsing_step(
    a: App,
    b: App,
    key: Key,
    now: u64,
    home: Seq<char>,
    cwd: Seq<char>,
    cmd: Command,
) -> bool {
    if is_nav_key(key) {
        browsing_nav_step(a, b, key, now, cmd)
    } else {
        browsing_repo_step(a, b, key, home, cwd, cmd)
    }
}

/// `b` is `a` after Tab on the results list: the next language, and a new
/// search when there is a query.
pub open spec fn cycled_and_searched(a: App, b: App, cmd: Command) -> bool {
    let m = App {
        language_idx: ((a.language_idx + 1) % (crate::app::LANGUAGE_COUNT as int)) as usize,
        language_filter: b.language_filter,
        ..a
    };
    &&& language_cycled(a, m)
    &&& if a.search_query.value@.len() > 0 {
        search_begun(m, b, cmd)
    } else {
        b == m && cmd is Nothing
    }
}

fn cycle_and_search(app: &mut App) -> (cmd: Command)
    requires
        old(app).wf(),
    ensures
        final(app).wf(),
        cycled_and_searched(*old(app), *final(app), cmd),
{
    app.cycle_language();
    if !app.search_query.is_empty() {
        begin_search(app)
    } else {
        Command::Nothing
    }
}

/// What a navigation key does on the search results list.
pub open spec fn browsing_nav_step(
    a: App,
    b: App,
    key: Key,
    now: u64,
    cmd: Command,
) -> bool {
    if key == Key::Char('q') {
        b == a && cmd is Quit
    } else if key == Key::Char('1') {
        b == (App {
            tab: Tab::Search,
            state: AppState::Browsing,
            readme_content: None,
            readme_scroll: 0,
            ..a
        }) && cmd is Nothing
    } else if key == Key::Char('2') {
        repos_switch_begun(a, b, cmd)
    } else if key == Key::Char('/') {
        goes_to(a, b, AppState::Searching, cmd)
    } else if key == Key::Char('j') || key == Key::Down {
        cmd is Nothing && if a.results@.len() == 0 {
            b == a
        } else {
            b == (App {
                selected: wrap_next(a.selected as int, a.results@.len() as int) as usize,
                readme_content: None,
                readme_scroll: 0,
                readme_pending: Some(now),
                ..a
            })
        }
    } else if key == Key::Char('k') || key == Key::Up {
        cmd is Nothing && if a.results@.len() == 0 {
            b == a
        } else {
            b == (App {
                selected: wrap_prev(a.selected as int, a.results@.len() as int) as usize,
                readme_content: None,
                readme_scroll: 0,
                readme_pending: Some(now),
                ..a
            })
        }
    } else if key == Key::Char('J') {
        b == (App { readme_scroll: inc_sat(a.readme_scroll), ..a }) && cmd is Nothing
    } else if key == Key::Char('K') {
        b == (App { readme_scroll: dec_sat(a.readme_scroll), ..a }) && cmd is Nothing
    } else if key == Key::Tab {
        cycled_and_searched(a, b, cmd)
    } else if key == Key::Char('r') {
        if a.search_query.value@.len() > 0 {
            search_begun(a, b, cmd)
        } else {
            no_op(a, b, cmd)
        }
    } else if key == Key::Char('?') {
        goes_to(a, b, AppState::Help, cmd)
    } else {
        no_op(a, b, cmd)
    }
}

/// What a repository action key does on the search results list.
pub open spec fn browsing_repo_step(
    a: App,
    b: App,
    key: Key,
    home: Seq<char>,
    cwd: Seq<char>,
    cmd: Command,
) -> bool {
    if key == Key::Char('c') {
        cmd is Nothing && if a.active() is Some {
            clone_prompt_opened(a, b, home, cwd)
        } else {
            b == a
        }
    } else if key == Key::Char('C') {
        cmd is Nothing && if a.active() is Some {
            sparse_prompt_opened(a, b, home, cwd)
        } else {
            b == a
        }
    } else if key == Key::Char('o') {
        b == a && match a.active() {
            Some(r) => opens(cmd, r.html_url),
            None => cmd is Nothing,
        }
    } else if key == Key::Char('s') {
        b == a && match a.active() {
            Some(r) => cmd matches Command::Star { owner, repo, full_name, star } && owner
                == r.owner && repo == r.name && full_name == r.full_name && star == !starred_has(
                a.starred@,
                r.full_name@,
            ),
            None => cmd is Nothing,
        }
    } else if key == Key::Char('f') {
        b == a && match a.active() {
            Some(r) => cmd matches Command::Fork { owner, repo, full_name } && owner == r.owner
                && repo == r.name && full_name == r.full_name,
            None => cmd is Nothing,
        }
    } else if key == Key::Char('u') {
        match a.active() {
            Some(r) => profile_begun(a, b, r.owner@, cmd),
            None => no_op(a, b, cmd),
        }
    } else if key == Key::Char('i') {
        match a.active() {
            Some(r) => issues_begun(a, b, r, cmd),
            None => no_op(a, b, cmd),
        }
    } else if key == Key::Char('3') {
        notifications_begun(a, b, cmd)
    } else if key == Key::Char('l') || key == Key::Enter {
        match a.active() {
            Some(r) => files_begun(a, b, r, None, cmd),
            None => no_op(a, b, cmd),
        }
    } else {
        no_op(a, b, cmd)
    }
}

fn open_clone_prompt(app: &mut App, home: &str, cwd: &str)
    requires
        old(app).wf(),
    ensures
        final(app).wf(),
        clone_prompt_opened(*old(app), *final(app), home@, cwd@),
{
    app.prefill_clone_path(home, cwd);
    app.state = AppState::Cloning;
}

fn open_sparse_prompt(app: &mut App, home: &str, cwd: &str)
    requires
        old(app).wf(),
    ensures
        final(app).wf(),
        sparse_prompt_opened(*old(app), *final(app), home@, cwd@),
{
    app.prefill_sparse_path(home, cwd);
    app.sparse_dirs_input.clear();
    proof {
        crate::text::lemma_char_pos(app.sparse_dirs_input.value@, 0);
    }
    app.sparse_step = SparseStep::Path;
    app.state = AppState::SparseCloning;
}

#[verifier::rlimit(50)]
fn handle_browsing_nav(app: &mut App, key: Key, now: u64) -> (cmd: Command)
    requires
        old(app).wf(),
    ensures
        final(app).wf(),
        browsing_nav_step(*old(app), *final(app), key, now, cmd),
{
    if key == Key::Char('q') {
        Command::Quit
    } else if key == Key::Char('1') {
        app.tab = Tab::Search;
        app.state = AppState::Browsing;
        app.readme_content = None;
        app.readme_scroll = 0;
        Command::Nothing
    } else if key == Key::Char('2') {
        switch_to_my_repos(app)
    } else if key == Key::Char('/') {
        app.state = AppState::Searching;
        Command::Nothing
    } else if key == Key::Char('j') || key == Key::Down {
        app.next(now);
        Command::Nothing
    } else if key == Key::Char('k') || key == Key::Up {
        app.prev(now);
        Command::Nothing
    } else if key == Key::Char('J') {
        app.readme_scroll = sat_inc(app.readme_scroll);
        Command::Nothing
    } else if key == Key::Char('K') {
        app.readme_scroll = sat_dec(app.readme_scroll);
        Command::Nothing
    } else if key == Key::Tab {
        cycle_and_search(app)
    } else if key == Key::Char('r') {
        if !app.search_query.is_empty() {
            begin_search(app)
        } else {
            Command::Nothing
        }
    } else if key == Key::Char('?') {
        app.state = AppState::Help;
        Command::Nothing
    } else {
        Command::Nothing
    }
}

fn handle_browsing_repo(app: &mut App, key: Key, home: &str, cwd: &str) -> (cmd: Command)
    requires
        old(app).wf(),
    ensures
        final(app).wf(),
        browsing_repo_step(*old(app), *final(app), key, home@, cwd@, cmd),
{
    if key == Key::Char('c') {
        if app.active_repo().is_some() {
            open_clone_prompt(app, home, cwd);
        }
        Command::Nothing
    } else if key == Key::Char('C') {
        if app.active_repo().is_some() {
            open_sparse_prompt(app, home, cwd);
        }
        Command::Nothing
    } else if key == Key::Char('o') {
        match app.active_repo() {
            Some(r) => Command::OpenUrl { url: r.html_url.clone() },
            None => Command::Nothing,
        }
    } else if key == Key::Char('s') {
        match app.active_repo() {
            Some(r) => {
                let star = !app.is_starred(&r.full_name);
                Command::Star {
                    owner: r.owner.clone(),
                    repo: r.name.clone(),
                    full_name: r.full_name.clone(),
                    star,
                }
            },
            None => Command::Nothing,
        }
    } else if key == Key::Char('f') {
        match app.active_repo() {
            Some(r) => Command::Fork {
                owner: r.owner.clone(),
                repo: r.name.clone(),
                full_name: r.full_name.clone(),
            },
            None => Command::Nothing,
        }
    } else if key == Key::Char('u') {
        match app.active_repo() {
            Some(r) => {
                let login = r.owner.clone();
                begin_profile(app, login)
            },
            None => Command::Nothing,
        }
    } else if key == Key::Char('i') {
        match app.active_repo() {
            Some(r) => {
                let r = r.clone();
                begin_issues(app, &r)
            },
            None => Command::Nothing,
        }
    } else if key == Key::Char('3') {
        begin_notifications(app)
    } else if key == Key::Char('l') || key == Key::Enter {
        match app.active_repo() {
            Some(r) => {
                let r = r.clone();
                begin_files(app, &r, false)
            },
            None => Command::Nothing,
        }
    } else {
        Command::Nothing
    }
}

fn handle_browsing(app: &mut App, key: Key, now: u64, home: &str, cwd: &str) -> (cmd: Command)
    requires
        old(app).wf(),
    ensures
        final(app).wf(),
        browsing_step(*old(app), *final(app), key, now, home@, cwd@, cmd),
{
    if key == Key::Char('q') || key == Key::Char('1') || key == Key::Char('2') || key == Key::Char(
        '/',
    ) || key == Key::Char('j') || key == Key::Down || key == Key::Char('k') || key == Key::Up || key
        == Key::Char('J') || key == Key::Char('K') || key == Key::Tab || key == Key::Char('r') || key
        == Key::Char('?') {
        handle_browsing_nav(app, key, now)
    } else {
        handle_browsing_repo(app, key, home, cwd)
    }
}

/// Where leaving the file browser goes: back to the profile view when it
/// was opened from there, otherwise to the list of the current tab.
pub open spec fn file_browser_exit(a: App) -> AppState {
    if a.prev_state matches Some(p) && p is ViewingProfile {
        AppState::ViewingProfile
    } else {
        a.home_state()
    }
}

/// `b` has left the file browser of `a`.
pub open spec fn file_browser_left(a: App, b: App, cmd: Command) -> bool {
    b == (App { state: file_browser_exit(a), prev_state: None, file_content: None, ..a })
        && cmd is Nothing
}

fn leave_file_browser(app: &mut App) -> (cmd: Command)
    ensures
        file_browser_left(*old(app), *final(app), cmd),
{
    let from_profile = matches!(&app.prev_state, Some(AppState::ViewingProfile));
    app.prev_state = None;
    app.state = if from_profile {
        AppState::ViewingProfile
    } else if app.tab == Tab::MyRepos {
        AppState::MyRepos
    } else {
        AppState::Browsing
    };
    app.file_content = None;
    Command::Nothing
}

/// `b` went up one directory from `a` (whose path stack is not empty) and,
/// when a repository is active, reloads the listing there.
pub open spec fn went_up(a: App, b: App, cmd: Command) -> bool {
    let stack = a.file_path_stack@.drop_last();
    let popped = App { file_path_stack: b.file_path_stack, ..a };
    &&& b.file_path_stack@ == stack
    &&& match popped.active() {
        Some(r) => {
            &&& b == (App {
                file_entries: b.file_entries,
                file_selected: 0,
                file_content: None,
                loading: true,
                ..popped
            })
            &&& b.file_entries@.len() == 0
            &&& cmd matches Command::ListDir { owner, repo, path, nested } && owner == r.owner
                && repo == r.name && !nested && (if stack.len() == 0 {
                path@.len() == 0
            } else {
                path@ == stack.last()@
            })
        },
        None => b == popped && cmd is Nothing,
    }
}

fn go_up(app: &mut App) -> (cmd: Command)
    requires
        old(app).file_path_stack@.len() > 0,
    ensures
        went_up(*old(app), *final(app), cmd),
{
    app.file_path_stack.pop();
    match app.active_repo() {
        Some(r) => {
            let owner = r.owner.clone();
            let repo = r.name.clone();
            let path = String::from_str(app.current_file_path());
            app.file_entries = Vec::new();
            app.file_selected = 0;
            app.file_content = None;
            app.loading = true;
            Command::ListDir { owner, repo, path, nested: false }
        },
        None => Command::Nothing,
    }
}

/// `b` opened the selected entry of `a`: a directory is entered and listed,
/// a file is fetched for preview (when a repository is active).
pub open spec fn entry_opened(a: App, b: App, cmd: Command) -> bool {
    match opt_at(a.file_entries@, a.file_selected as int) {
        None => no_op(a, b, cmd),
        Some(e) => match a.active() {
            None => no_op(a, b, cmd),
            Some(r) => if e.entry_type == EntryType::Dir {
                &&& b == (App {
                    file_path_stack: b.file_path_stack,
                    file_entries: b.file_entries,
                    file_selected: 0,
                    file_content: None,
                    loading: true,
                    ..a
                })
                &&& b.file_path_stack@ == a.file_path_stack@.push(e.path)
                &&& b.file_entries@.len() == 0
                &&& cmd matches Command::ListDir { owner, repo, path, nested } && owner
                    == r.owner && repo == r.name && path == e.path && nested
            } else {
                &&& b == (App { loading: true, file_content: None, ..a })
                &&& cmd matches Command::LoadFile { owner, repo, path } && owner == r.owner
                    && repo == r.name && path == e.path
            },
        },
    }
}

fn open_entry(app: &mut App) -> (cmd: Command)
    ensures
        entry_opened(*old(app), *final(app), cmd),
{
    let entry = match app.selected_entry() {
        Some(e) => e.clone(),
        None => return Command::Nothing,
    };
    let (owner, repo) = match app.active_repo() {
        Some(r) => (r.owner.clone(), r.name.clone()),
        None => return Command::Nothing,
    };
    match entry.entry_type {
        EntryType::Dir => {
            app.file_path_stack.push(entry.path.clone());
            app.file_entries = Vec::new();
            app.file_selected = 0;
            app.file_content = None;
            app.loading = true;
            Command::ListDir { owner, repo, path: entry.path, nested: true }
        },
        EntryType::File => {
            app.loading = true;
            app.file_content = None;
            Command::LoadFile { owner, repo, path: entry.path }
        },
    }
}

/// What a key does in the file browser.
pub open spec fn file_browsing_step(a: App, b: App, key: Key, cmd: Command) -> bool {
    if key == Key::Char('q') {
        b == a && cmd is Quit
    } else if (key == Key::Esc || key == Key::Char('h')) && a.file_path_stack@.len() == 0 {
        file_browser_left(a, b, cmd)
    } else if key == Key::Char('h') {
        went_up(a, b, cmd)
    } else if key == Key::Esc {
        file_browser_left(a, b, cmd)
    } else if key == Key::Char('j') || key == Key::Down {
        cmd is Nothing && if a.file_entries@.len() == 0 {
            b == a
        } else {
            b == (App {
                file_selected: wrap_next(a.file_selected as int, a.file_entries@.len() as int)
                    as usize,
                file_content: None,
                file_scroll: 0,
                ..a
            })
        }
    } else if key == Key::Char('k') || key == Key::Up {
        cmd is Nothing && if a.file_entries@.len() == 0 {
            b == a
        } else {
            b == (App {
                file_selected: wrap_prev(a.file_selected as int, a.file_entries@.len() as int)
                    as usize,
                file_content: None,
                file_scroll: 0,
                ..a
            })
        }
    } else if key == Key::Char('J') {
        b == (App { file_scroll: inc_sat(a.file_scroll), ..a }) && cmd is Nothing
    } else if key == Key::Char('K') {
        b == (App { file_scroll: dec_sat(a.file_scroll), ..a }) && cmd is Nothing
    } else if key == Key::Char('c') {
        cmd is Nothing && if opt_at(a.file_entries@, a.file_selected as int) matches Some(e)
            && e.entry_type == EntryType::File {
            &&& b == (App {
                file_save_path_input: b.file_save_path_input,
                state: AppState::FileSaving,
                ..a
            })
            &&& holds_text(b.file_save_path_input, Seq::empty())
        } else {
            b == a
        }
    } else if key == Key::Char('l') || key == Key::Enter {
        entry_opened(a, b, cmd)
    } else {
        no_op(a, b, cmd)
    }
}

fn open_save_prompt(app: &mut App)
    requires
        old(app).wf(),
    ensures
        final(app).wf(),
        *final(app) == (App {
            file_save_path_input: final(app).file_save_path_input,
            state: AppState::FileSaving,
            ..*old(app)
        }),
        holds_text(final(app).file_save_path_input, Seq::empty()),
{
    app.file_save_path_input.clear();
    proof {
        crate::text::lemma_char_pos(app.file_save_path_input.value@, 0);
    }
    app.state = AppState::FileSaving;
}

#[verifier::rlimit(50)]
fn handle_file_browsing(app: &mut App, key: Key) -> (cmd: Command)
    requires
        old(app).wf(),
    ensures
        final(app).wf(),
        file_browsing_step(*old(app), *final(app), key, cmd),
{
    if key == Key::Char('q') {
        Command::Quit
    } else if (key == Key::Esc || key == Key::Char('h')) && app.file_path_stack.len() == 0 {
        leave_file_browser(app)
    } else if key == Key::Char('h') {
        go_up(app)
    } else if key == Key::Esc {
        leave_file_browser(app)
    } else if key == Key::Char('j') || key == Key::Down {
        app.file_next();
        Command::Nothing
    } else if key == Key::Char('k') || key == Key::Up {
        app.file_prev();
        Command::Nothing
    } else if key == Key::Char('J') {
        app.file_scroll = sat_inc(app.file_scroll);
        Command::Nothing
    } else if key == Key::Char('K') {
        app.file_scroll = sat_dec(app.file_scroll);
        Command::Nothing
    } else if key == Key::Char('c') {
        let is_file = match app.selected_entry() {
            Some(e) => e.entry_type == EntryType::File,
            None => false,
        };
        if is_file {
            open_save_prompt(app);
        }
        Command::Nothing
    } else if key == Key::Char('l') || key == Key::Enter {
        open_entry(app)
    } else {
        Command::Nothing
    }
}

/// `b` has started a background clone of `r` into the path typed in `a`,
/// or shows why not.
pub open spec fn clone_started(
    a: App,
    b: App,
    r: Repo,
    now: u64,
    home: Seq<char>,
    cwd: Seq<char>,
    cmd: Command,
) -> bool {
    let path = expanded_path(trimmed(a.clone_path_input.value@), home, cwd);
    if path.len() == 0 {
        shows_error(a, b, "clone path cannot be empty"@, Seq::empty()) && cmd is Nothing
    } else {
        &&& shows_status(
            App { state: a.home_state(), ..a },
            b,
            "cloning "@ + r.full_name@ + "..."@,
            now,
        )
        &&& cmd matches Command::Clone { url, path: p } && url == r.clone_url && p@ == path
    }
}

fn start_clone(app: &mut App, r: &Repo, now: u64, home: &str, cwd: &str) -> (cmd: Command)
    ensures
        clone_started(*old(app), *final(app), *r, now, home@, cwd@, cmd),
{
    let url = r.clone_url.clone();
    let path = app.clone_path_input.to_path(home, cwd);
    if path.as_str().unicode_len() == 0 {
        app.set_error(String::from_str("clone path cannot be empty"));
        proof {
            reveal_strlit("clone path cannot be empty");
            assert("clone path cannot be empty"@ + Seq::<char>::empty() =~= "clone path cannot be empty"@);
        }
        return Command::Nothing;
    }
    let m = concat("cloning ", r.full_name.as_str());
    let msg = concat(m.as_str(), "...");
    app.set_status(msg, now);
    app.state = if app.tab == Tab::MyRepos {
        AppState::MyRepos
    } else {
        AppState::Browsing
    };
    Command::Clone { url, path }
}

/// What a key does in the clone prompt.
pub open spec fn cloning_step(
    a: App,
    b: App,
    key: Key,
    now: u64,
    home: Seq<char>,
    cwd: Seq<char>,
    cmd: Command,
) -> bool {
    if key == Key::Esc {
        goes_to(a, b, AppState::Browsing, cmd)
    } else if key == Key::Enter {
        match a.active() {
            Some(r) => clone_started(a, b, r, now, home, cwd, cmd),
            None => no_op(a, b, cmd),
        }
    } else {
        &&& b == (App { clone_path_input: b.clone_path_input, ..a })
        &&& edited(a.clone_path_input, b.clone_path_input, key)
        &&& cmd is Nothing
    }
}

fn handle_cloning(app: &mut App, key: Key, now: u64, home: &str, cwd: &str) -> (cmd: Command)
    requires
        old(app).wf(),
    ensures
        final(app).wf(),
        cloning_step(*old(app), *final(app), key, now, home@, cwd@, cmd),
{
    if key == Key::Esc {
        app.state = AppState::Browsing;
        Command::Nothing
    } else if key == Key::Enter {
        match app.active_repo() {
            Some(r) => {
                let r = r.clone();
                start_clone(app, &r, now, home, cwd)
            },
            None => Command::Nothing,
        }
    } else {
        edit_field(&mut app.clone_path_input, key);
        Command::Nothing
    }
}

/// `b` has started a background sparse clone of `r` with the path and
/// directories typed in `a`.
pub open spec fn sparse_clone_started(
    a: App,
    b: App,
    r: Repo,
    now: u64,
    home: Seq<char>,
    cwd: Seq<char>,
    cmd: Command,
) -> bool {
    &&& shows_status(
        App { state: AppState::Browsing, ..a },
        b,
        "sparse cloning "@ + r.full_name@ + "..."@,
        now,
    )
    &&& cmd matches Command::SparseClone { url, path, branch, dirs } && url == r.clone_url
        && path@ == expanded_path(trimmed(a.sparse_path_input.value@), home, cwd) && branch
        == r.default_branch && views(dirs@) == crate::path::words(
        trimmed(a.sparse_dirs_input.value@),
    )
}

fn start_sparse_clone(app: &mut App, r: &Repo, now: u64, home: &str, cwd: &str) -> (cmd: Command)
    ensures
        sparse_clone_started(*old(app), *final(app), *r, now, home@, cwd@, cmd),
{
    let url = r.clone_url.clone();
    let branch = r.default_branch.clone();
    let path = app.sparse_path_input.to_path(home, cwd);
    let raw = trim(app.sparse_dirs_input.as_str());
    let dirs = crate::path::split_words(raw.as_str());
    let m = concat("sparse cloning ", r.full_name.as_str());
    let msg = concat(m.as_str(), "...");
    app.set_status(msg, now);
    app.state = AppState::Browsing;
    Command::SparseClone { url, path, branch, dirs }
}

/// What a key does in the sparse clone prompt: the keys edit the field of
/// the current step; Enter moves from the path to the directories (when a
/// path is typed), then starts the clone.
pub open spec fn sparse_cloning_step(
    a: App,
    b: App,
    key: Key,
    now: u64,
    home: Seq<char>,
    cwd: Seq<char>,
    cmd: Command,
) -> bool {
    if key == Key::Esc {
        goes_to(a, b, AppState::Browsing, cmd)
    } else if key == Key::Enter {
        if a.sparse_step == SparseStep::Path {
            if !is_blank(a.sparse_path_input.value@) {
                b == (App { sparse_step: SparseStep::Dirs, ..a }) && cmd is Nothing
            } else {
                no_op(a, b, cmd)
            }
        } else {
            match a.active() {
                Some(r) => sparse_clone_started(a, b, r, now, home, cwd, cmd),
                None => no_op(a, b, cmd),
            }
        }
    } else if a.sparse_step == SparseStep::Path {
        &&& b == (App { sparse_path_input: b.sparse_path_input, ..a })
        &&& edited(a.sparse_path_input, b.sparse_path_input, key)
        &&& cmd is Nothing
    } else {
        &&& b == (App { sparse_dirs_input: b.sparse_dirs_input, ..a })
        &&& edited(a.sparse_dirs_input, b.sparse_dirs_input, key)
        &&& cmd is Nothing
    }
}

fn handle_sparse_cloning(app: &mut App, key: Key, now: u64, home: &str, cwd: &str) -> (cmd:
    Command)
    requires
        old(app).wf(),
    ensures
        final(app).wf(),
        sparse_cloning_step(*old(app), *final(app), key, now, home@, cwd@, cmd),
{
    if key == Key::Esc {
        app.state = AppState::Browsing;
        Command::Nothing
    } else if key == Key::Enter {
        if app.sparse_step == SparseStep::Path {
            let t = trim(app.sparse_path_input.as_str());
            if t.as_str().unicode_len() != 0 {
                app.sparse_step = SparseStep::Dirs;
            }
            Command::Nothing
        } else {
            match app.active_repo() {
                Some(r) => {
                    let r = r.clone();
                    start_sparse_clone(app, &r, now, home, cwd)
                },
                None => Command::Nothing,
            }
        }
    } else if app.sparse_step == SparseStep::Path {
        edit_field(&mut app.sparse_path_input, key);
        Command::Nothing
    } else {
        edit_field(&mut app.sparse_dirs_input, key);
        Command::Nothing
    }
}

/// `b` has asked for the selected file of `a` to be saved at the typed
/// path, or shows why not.
pub open spec fn save_started(
    a: App,
    b: App,
    now: u64,
    home: Seq<char>,
    cwd: Seq<char>,
    cmd: Command,
) -> bool {
    let dest = expanded_path(trimmed(a.file_save_path_input.value@), home, cwd);
    if dest.len() == 0 {
        shows_error(a, b, "save path cannot be empty"@, Seq::empty()) && cmd is Nothing
    } else {
        match (a.active(), opt_at(a.file_entries@, a.file_selected as int)) {
            (Some(r), Some(e)) => {
                &&& shows_status(
                    App { state: AppState::FileBrowsing, ..a },
                    b,
                    "downloading "@ + e.name@ + "..."@,
                    now,
                )
                &&& cmd matches Command::DownloadFile { owner, repo, path, dest: d } && owner
                    == r.owner && repo == r.name && path == e.path && d@ == dest
            },
            _ => no_op(a, b, cmd),
        }
    }
}

fn start_save(app: &mut App, now: u64, home: &str, cwd: &str) -> (cmd: Command)
    ensures
        save_started(*old(app), *final(app), now, home@, cwd@, cmd),
{
    let dest = app.file_save_path_input.to_path(home, cwd);
    if dest.as_str().unicode_len() == 0 {
        app.set_error(String::from_str("save path cannot be empty"));
        proof {
            reveal_strlit("save path cannot be empty");
            assert("save path cannot be empty"@ + Seq::<char>::empty() =~= "save path cannot be empty"@);
        }
        return Command::Nothing;
    }
    let (owner, repo) = match app.active_repo() {
        Some(r) => (r.owner.clone(), r.name.clone()),
        None => return Command::Nothing,
    };
    let (path, name) = match app.selected_entry() {
        Some(e) => (e.path.clone(), e.name.clone()),
        None => return Command::Nothing,
    };
    let m = concat("downloading ", name.as_str());
    app.set_status(concat(m.as_str(), "..."), now);
    app.state = AppState::FileBrowsing;
    Command::DownloadFile { owner, repo, path, dest }
}

/// What a key does in the save prompt.
pub open spec fn file_saving_step(
    a: App,
    b: App,
    key: Key,
    now: u64,
    home: Seq<char>,
    cwd: Seq<char>,
    cmd: Command,
) -> bool {
    if key == Key::Esc {
        goes_to(a, b, AppState::FileBrowsing, cmd)
    } else if key == Key::Enter {
        save_started(a, b, now, home, cwd, cmd)
    } else {
        &&& b == (App { file_save_path_input: b.file_save_path_input, ..a })
        &&& edited(a.file_save_path_input, b.file_save_path_input, key)
        &&& cmd is Nothing
    }
}

fn handle_file_saving(app: &mut App, key: Key, now: u64, home: &str, cwd: &str) -> (cmd: Command)
    requires
        old(app).wf(),
    ensures
        final(app).wf(),
        file_saving_step(*old(app), *final(app), key, now, home@, cwd@, cmd),
{
    if key == Key::Esc {
        app.state = AppState::FileBrowsing;
        Command::Nothing
    } else if key == Key::Enter {
        start_save(app, now, home, cwd)
    } else {
        edit_field(&mut app.file_save_path_input, key);
        Command::Nothing
    }
}

/// `b` has opened the rename prompt of `a` with the name of `r` typed in.
pub open spec fn rename_prompt_opened(a: App, b: App, r: Repo) -> bool {
    &&& b == (App { rename_input: b.rename_input, state: AppState::Renaming, ..a })
    &&& holds_text(b.rename_input, r.name@)
}

/// What a navigation key does on the repos tab.
pub open spec fn my_repos_nav_step(a: App, b: App, key: Key, now: u64, cmd: Command) -> bool {
    if key == Key::Char('q') {
        b == a && cmd is Quit
    } else if key == Key::Char('1') {
        b == (App {
            tab: Tab::Search,
            state: AppState::Browsing,
            readme_content: None,
            readme_scroll: 0,
            ..a
        }) && cmd is Nothing
    } else if key == Key::Char('2') {
        b == (App { my_repos_loading: true, ..a }) && (cmd matches Command::ListMyRepos { refresh }
            && refresh)
    } else if key == Key::Char('j') || key == Key::Down {
        cmd is Nothing && if a.my_repos@.len() == 0 {
            b == a
        } else {
            b == (App {
                my_repos_selected: wrap_next(a.my_repos_selected as int, a.my_repos@.len() as int)
                    as usize,
                readme_content: None,
                readme_scroll: 0,
                readme_pending: Some(now),
                ..a
            })
        }
    } else if key == Key::Char('k') || key == Key::Up {
        cmd is Nothing && if a.my_repos@.len() == 0 {
            b == a
        } else {
            b == (App {
                my_repos_selected: wrap_prev(a.my_repos_selected as int, a.my_repos@.len() as int)
                    as usize,
                readme_content: None,
                readme_scroll: 0,
                readme_pending: Some(now),
                ..a
            })
        }
    } else if key == Key::Char('J') {
        b == (App { readme_scroll: inc_sat(a.readme_scroll), ..a }) && cmd is Nothing
    } else if key == Key::Char('K') {
        b == (App { readme_scroll: dec_sat(a.readme_scroll), ..a }) && cmd is Nothing
    } else if key == Key::Char('?') {
        goes_to(a, b, AppState::Help, cmd)
    } else if key == Key::Char('3') {
        notifications_begun(a, b, cmd)
    } else {
        no_op(a, b, cmd)
    }
}

/// What a key that acts on the selected repository does on the repos tab.
pub open spec fn my_repos_action_step(
    a: App,
    b: App,
    key: Key,
    home: Seq<char>,
    cwd: Seq<char>,
    cmd: Command,
) -> bool {
    match opt_at(a.my_repos@, a.my_repos_selected as int) {
        None => no_op(a, b, cmd),
        Some(r) => if key == Key::Char('o') {
            b == a && opens(cmd, r.html_url)
        } else if key == Key::Char('c') {
            clone_prompt_opened(a, b, home, cwd) && cmd is Nothing
        } else if key == Key::Char('l') || key == Key::Enter {
            files_begun(a, b, r, None, cmd)
        } else if key == Key::Char('u') {
            profile_begun(a, b, r.owner@, cmd)
        } else if key == Key::Char('R') {
            rename_prompt_opened(a, b, r) && cmd is Nothing
        } else if key == Key::Char('D') {
            goes_to(a, b, AppState::ConfirmDelete, cmd)
        } else if key == Key::Char('A') {
            b == a && (cmd matches Command::SetArchived { owner, repo, archived, full_name } && owner
                == r.owner && repo == r.name && archived == !r.archived && full_name
                == r.full_name)
        } else if key == Key::Char('i') {
            issues_begun(a, b, r, cmd)
        } else {
            no_op(a, b, cmd)
        },
    }
}

/// The keys of the repos tab that act on the selected repository.
pub open spec fn is_my_repos_action_key(key: Key) -> bool {
    key == Key::Char('o') || key == Key::Char('c') || key == Key::Char('l') || key == Key::Enter
        || key == Key::Char('u') || key == Key::Char('R') || key == Key::Char('D') || key
        == Key::Char('A') || key == Key::Char('i')
}

/// What a key does on the repos tab.
pub open spec fn my_repos_step(
    a: App,
    b: App,
    key: Key,
    now: u64,
    home: Seq<char>,
    cwd: Seq<char>,
    cmd: Command,
) -> bool {
    if is_my_repos_action_key(key) {
        my_repos_action_step(a, b, key, home, cwd, cmd)
    } else {
        my_repos_nav_step(a, b, key, now, cmd)
    }
}

#[verifier::rlimit(50)]
fn handle_my_repos_nav(app: &mut App, key: Key, now: u64) -> (cmd: Command)
    requires
        old(app).wf(),
    ensures
        final(app).wf(),
        my_repos_nav_step(*old(app), *final(app), key, now, cmd),
{
    if key == Key::Char('q') {
        Command::Quit
    } else if key == Key::Char('1') {
        app.tab = Tab::Search;
        app.state = AppState::Browsing;
        app.readme_content = None;
        app.readme_scroll = 0;
        Command::Nothing
    } else if key == Key::Char('2') {
        app.my_repos_loading = true;
        Command::ListMyRepos { refresh: true }
    } else if key == Key::Char('j') || key == Key::Down {
        app.my_repos_next(now);
        Command::Nothing
    } else if key == Key::Char('k') || key == Key::Up {
        app.my_repos_prev(now);
        Command::Nothing
    } else if key == Key::Char('J') {
        app.readme_scroll = sat_inc(app.readme_scroll);
        Command::Nothing
    } else if key == Key::Char('K') {
        app.readme_scroll = sat_dec(app.readme_scroll);
        Command::Nothing
    } else if key == Key::Char('?') {
        app.state = AppState::Help;
        Command::Nothing
    } else if key == Key::Char('3') {
        begin_notifications(app)
    } else {
        Command::Nothing
    }
}

fn open_rename_prompt(app: &mut App, r: &Repo)
    ensures
        rename_prompt_opened(*old(app), *final(app), *r),
{
    app.rename_input = text_input_of(&r.name);
    app.state = AppState::Renaming;
}

#[verifier::rlimit(50)]
fn handle_my_repos_action(app: &mut App, key: Key, home: &str, cwd: &str) -> (cmd: Command)
    requires
        old(app).wf(),
    ensures
        final(app).wf(),
        my_repos_action_step(*old(app), *final(app), key, home@, cwd@, cmd),
{
    let r = match app.selected_my_repo() {
        Some(r) => r.clone(),
        None => return Command::Nothing,
    };
    if key == Key::Char('o') {
        Command::OpenUrl { url: r.html_url.clone() }
    } else if key == Key::Char('c') {
        open_clone_prompt(app, home, cwd);
        Command::Nothing
    } else if key == Key::Char('l') || key == Key::Enter {
        begin_files(app, &r, false)
    } else if key == Key::Char('u') {
        begin_profile(app, r.owner.clone())
    } else if key == Key::Char('R') {
        open_rename_prompt(app, &r);
        Command::Nothing
    } else if key == Key::Char('D') {
        app.state = AppState::ConfirmDelete;
        Command::Nothing
    } else if key == Key::Char('A') {
        Command::SetArchived {
            owner: r.owner.clone(),
            repo: r.name.clone(),
            archived: !r.archived,
            full_name: r.full_name.clone(),
        }
    } else if key == Key::Char('i') {
        begin_issues(app, &r)
    } else {
        Command::Nothing
    }
}

fn handle_my_repos(app: &mut App, key: Key, now: u64, home: &str, cwd: &str) -> (cmd: Command)
    requires
        old(app).wf(),
    ensures
        final(app).wf(),
        my_repos_step(*old(app), *final(app), key, now, home@, cwd@, cmd),
{
    if key == Key::Char('o') || key == Key::Char('c') || key == Key::Char('l') || key == Key::Enter
        || key == Key::Char('u') || key == Key::Char('R') || key == Key::Char('D') || key
        == Key::Char('A') || key == Key::Char('i') {
        handle_my_repos_action(app, key, home, cwd)
    } else {
        handle_my_repos_nav(app, key, now)
    }
}

/// What a key does in the rename prompt.
pub open spec fn renaming_step(a: App, b: App, key: Key, cmd: Command) -> bool {
    if key == Key::Esc {
        goes_to(a, b, AppState::MyRepos, cmd)
    } else if key == Key::Enter {
        let new_name = trimmed(a.rename_input.value@);
        if new_name.len() == 0 {
            shows_error(a, b, "name cannot be empty"@, Seq::empty()) && cmd is Nothing
        } else {
            match opt_at(a.my_repos@, a.my_repos_selected as int) {
                Some(r) => b == a && (cmd matches Command::Rename { owner, repo, new_name: n }
                    && owner == r.owner && repo == r.name && n@ == new_name),
                None => no_op(a, b, cmd),
            }
        }
    } else {
        &&& b == (App { rename_input: b.rename_input, ..a })
        &&& edited(a.rename_input, b.rename_input, key)
        &&& cmd is Nothing
    }
}

fn handle_renaming(app: &mut App, key: Key) -> (cmd: Command)
    requires
        old(app).wf(),
    ensures
        final(app).wf(),
        renaming_step(*old(app), *final(app), key, cmd),
{
    if key == Key::Esc {
        app.state = AppState::MyRepos;
        Command::Nothing
    } else if key == Key::Enter {
        let new_name = trim(app.rename_input.as_str());
        if new_name.as_str().unicode_len() == 0 {
            app.set_error(String::from_str("name cannot be empty"));
            proof {
                reveal_strlit("name cannot be empty");
                assert("name cannot be empty"@ + Seq::<char>::empty() =~= "name cannot be empty"@);
            }
            return Command::Nothing;
        }
        match app.selected_my_repo() {
            Some(r) => Command::Rename { owner: r.owner.clone(), repo: r.name.clone(), new_name },
            None => Command::Nothing,
        }
    } else {
        edit_field(&mut app.rename_input, key);
        Command::Nothing
    }
}

/// What a key does while deletion waits for confirmation.
pub open spec fn confirm_delete_step(a: App, b: App, key: Key, cmd: Command) -> bool {
    if key == Key::Esc || key == Key::Char('n') || key == Key::Char('N') {
        goes_to(a, b, AppState::MyRepos, cmd)
    } else if key == Key::Char('y') || key == Key::Char('Y') {
        b == a && match opt_at(a.my_repos@, a.my_repos_selected as int) {
            Some(r) => cmd matches Command::Delete { owner, repo, full_name } && owner == r.owner
                && repo == r.name && full_name == r.full_name,
            None => cmd is Nothing,
        }
    } else {
        no_op(a, b, cmd)
    }
}

fn handle_confirm_delete(app: &mut App, key: Key) -> (cmd: Command)
    requires
        old(app).wf(),
    ensures
        final(app).wf(),
        confirm_delete_step(*old(app), *final(app), key, cmd),
{
    if key == Key::Esc || key == Key::Char('n') || key == Key::Char('N') {
        app.state = AppState::MyRepos;
        Command::Nothing
    } else if key == Key::Char('y') || key == Key::Char('Y') {
        match app.selected_my_repo() {
            Some(r) => Command::Delete {
                owner: r.owner.clone(),
                repo: r.name.clone(),
                full_name: r.full_name.clone(),
            },
            None => Command::Nothing,
        }
    } else {
        Command::Nothing
    }
}

/// What a navigation key does in the profile view.
pub open spec fn profile_nav_step(a: App, b: App, key: Key, now: u64, cmd: Command) -> bool {
    if key == Key::Char('q') {
        b == a && cmd is Quit
    } else if key == Key::Esc || key == Key::Char('h') {
        b == (App { state: a.home_state(), readme_content: None, readme_scroll: 0, ..a })
            && cmd is Nothing
    } else if key == Key::Char('j') || key == Key::Down {
        cmd is Nothing && if a.profile_repos@.len() == 0 {
            b == a
        } else {
            b == (App {
                profile_repos_selected: wrap_next(
                    a.profile_repos_selected as int,
                    a.profile_repos@.len() as int,
                ) as usize,
                readme_content: None,
                readme_scroll: 0,
                readme_pending: Some(now),
                ..a
            })
        }
    } else if key == Key::Char('k') || key == Key::Up {
        cmd is Nothing && if a.profile_repos@.len() == 0 {
            b == a
        } else {
            b == (App {
                profile_repos_selected: wrap_prev(
                    a.profile_repos_selected as int,
                    a.profile_repos@.len() as int,
                ) as usize,
                readme_content: None,
                readme_scroll: 0,
                readme_pending: Some(now),
                ..a
            })
        }
    } else if key == Key::Char('J') {
        b == (App { readme_scroll: inc_sat(a.readme_scroll), ..a }) && cmd is Nothing
    } else if key == Key::Char('K') {
        b == (App { readme_scroll: dec_sat(a.readme_scroll), ..a }) && cmd is Nothing
    } else if key == Key::Char('o') {
        b == a && match a.profile_user {
            Some(p) => opens(cmd, p.html_url),
            None => cmd is Nothing,
        }
    } else if key == Key::Char('3') {
        notifications_begun(a, b, cmd)
    } else if key == Key::Char('?') {
        goes_to(a, b, AppState::Help, cmd)
    } else {
        no_op(a, b, cmd)
    }
}

/// What a key that acts on the selected repository does in the profile view.
pub open spec fn profile_action_step(
    a: App,
    b: App,
    key: Key,
    home: Seq<char>,
    cwd: Seq<char>,
    cmd: Command,
) -> bool {
    match opt_at(a.profile_repos@, a.profile_repos_selected as int) {
        None => no_op(a, b, cmd),
        Some(r) => if key == Key::Char('u') {
            if a.profile_user matches Some(p) && p.login@ == r.owner@ {
                no_op(a, b, cmd)
            } else {
                profile_begun(a, b, r.owner@, cmd)
            }
        } else if key == Key::Char('c') {
            clone_prompt_opened(a, b, home, cwd) && cmd is Nothing
        } else if key == Key::Char('l') || key == Key::Enter {
            files_begun(a, b, r, Some(AppState::ViewingProfile), cmd)
        } else if key == Key::Char('i') {
            issues_begun(a, b, r, cmd)
        } else {
            no_op(a, b, cmd)
        },
    }
}

/// What a key does in the profile view.
pub open spec fn profile_step(
    a: App,
    b: App,
    key: Key,
    now: u64,
    home: Seq<char>,
    cwd: Seq<char>,
    cmd: Command,
) -> bool {
    if key == Key::Char('u') || key == Key::Char('c') || key == Key::Char('l') || key == Key::Enter
        || key == Key::Char('i') {
        profile_action_step(a, b, key, home, cwd, cmd)
    } else {
        profile_nav_step(a, b, key, now, cmd)
    }
}

#[verifier::rlimit(50)]
fn handle_profile_nav(app: &mut App, key: Key, now: u64) -> (cmd: Command)
    requires
        old(app).wf(),
    ensures
        final(app).wf(),
        profile_nav_step(*old(app), *final(app), key, now, cmd),
{
    if key == Key::Char('q') {
        Command::Quit
    } else if key == Key::Esc || key == Key::Char('h') {
        app.state = if app.tab == Tab::MyRepos {
            AppState::MyRepos
        } else {
            AppState::Browsing
        };
        app.readme_content = None;
        app.readme_scroll = 0;
        Command::Nothing
    } else if key == Key::Char('j') || key == Key::Down {
        app.profile_next(now);
        Command::Nothing
    } else if key == Key::Char('k') || key == Key::Up {
        app.profile_prev(now);
        Command::Nothing
    } else if key == Key::Char('J') {
        app.readme_scroll = sat_inc(app.readme_scroll);
        Command::Nothing
    } else if key == Key::Char('K') {
        app.readme_scroll = sat_dec(app.readme_scroll);
        Command::Nothing
    } else if key == Key::Char('o') {
        match &app.profile_user {
            Some(p) => Command::OpenUrl { url: p.html_url.clone() },
            None => Command::Nothing,
        }
    } else if key == Key::Char('3') {
        begin_notifications(app)
    } else if key == Key::Char('?') {
        app.state = AppState::Help;
        Command::Nothing
    } else {
        Command::Nothing
    }
}

fn handle_profile_action(app: &mut App, key: Key, home: &str, cwd: &str) -> (cmd: Command)
    requires
        old(app).wf(),
    ensures
        final(app).wf(),
        profile_action_step(*old(app), *final(app), key, home@, cwd@, cmd),
{
    let r = match app.selected_profile_repo() {
        Some(r) => r.clone(),
        None => return Command::Nothing,
    };
    if key == Key::Char('u') {
        let same = match &app.profile_user {
            Some(p) => p.login == r.owner,
            None => false,
        };
        if same {
            Command::Nothing
        } else {
            begin_profile(app, r.owner.clone())
        }
    } else if key == Key::Char('c') {
        open_clone_prompt(app, home, cwd);
        Command::Nothing
    } else if key == Key::Char('l') || key == Key::Enter {
        begin_files(app, &r, true)
    } else if key == Key::Char('i') {
        begin_issues(app, &r)
    } else {
        Command::Nothing
    }
}

fn handle_viewing_profile(app: &mut App, key: Key, now: u64, home: &str, cwd: &str) -> (cmd:
    Command)
    requires
        old(app).wf(),
    ensures
        final(app).wf(),
        profile_step(*old(app), *final(app), key, now, home@, cwd@, cmd),
{
    if key == Key::Char('u') || key == Key::Char('c') || key == Key::Char('l') || key == Key::Enter
        || key == Key::Char('i') {
        handle_profile_action(app, key, home, cwd)
    } else {
        handle_profile_nav(app, key, now)
    }
}

/// The web page of a notification subject: the API URL with
/// `api.github.com/repos` turned into `github.com` and `/pulls/` into `/pull/`.
pub open spec fn web_url(api_url: Seq<char>) -> Seq<char> {
    crate::path::replaced(
        crate::path::replaced(
            crate::path::replaced(api_url, "api.github.com/repos"@, "github.com"@),
            "/pulls/"@,
            "/pull/"@,
        ),
        "/issues/"@,
        "/issues/"@,
    )
}

/// The web page of a notification subject, from its API URL.
pub fn notification_web_url(api_url: &str) -> (r: String)
    ensures
        r@ == web_url(api_url@),
{
    proof {
        reveal_strlit("api.github.com/repos");
        reveal_strlit("/pulls/");
        reveal_strlit("/issues/");
    }
    let a = crate::path::replace_all(api_url, "api.github.com/repos", "github.com");
    let b = crate::path::replace_all(a.as_str(), "/pulls/", "/pull/");
    crate::path::replace_all(b.as_str(), "/issues/", "/issues/")
}

/// The web page of a notification is on github.com, not on the API host:
/// for a subject URL `https://api.github.com/repos/` followed by `p`, it is
/// `https://github.com/` followed by `p`, with `/pulls/` read as `/pull/`
/// (and any further API host in `p` turned into `github.com` as well).
pub proof fn law_web_url(p: Seq<char>)
    ensures
        web_url("https://api.github.com/repos/"@ + p) == "https://github.com"@
            + crate::path::replaced(
            "/"@ + crate::path::replaced(p, "api.github.com/repos"@, "github.com"@),
            "/pulls/"@,
            "/pull/"@,
        ),
        (forall|i: int| !#[trigger] crate::path::occurs_at(p, "api.github.com/repos"@, i))
            ==> web_url("https://api.github.com/repos/"@ + p) == "https://github.com"@
            + crate::path::replaced("/"@ + p, "/pulls/"@, "/pull/"@),
{
    reveal_strlit("https://api.github.com/repos/");
    reveal_strlit("api.github.com/repos");
    reveal_strlit("github.com");
    reveal_strlit("https://github.com");
    reveal_strlit("https://");
    reveal_strlit("/pulls/");
    reveal_strlit("/pull/");
    reveal_strlit("/issues/");
    reveal_strlit("/");
    let host = "api.github.com/repos"@;
    let web = "github.com"@;
    let h = "https://"@;
    let slash_p = "/"@ + p;
    let rest = host + slash_p;
    let u = "https://api.github.com/repos/"@ + p;
    assert(u =~= h + rest);
    assert forall|i: int| 0 <= i < h.len() implies !#[trigger] crate::path::occurs_at(
        h + rest,
        host,
        i,
    ) by {
        if crate::path::occurs_at(h + rest, host, i) {
            assert((h + rest).subrange(i, i + host.len())[0] == (h + rest)[i]);
        }
    }
    crate::path::lemma_replaced_prefix(h, rest, host, web);
    assert(rest.take(host.len() as int) =~= host);
    assert(rest.skip(host.len() as int) =~= slash_p);
    assert forall|i: int| 0 <= i < "/"@.len() implies !#[trigger] crate::path::occurs_at(
        "/"@ + p,
        host,
        i,
    ) by {
        if crate::path::occurs_at("/"@ + p, host, i) {
            assert(("/"@ + p).subrange(i, i + host.len())[0] == ("/"@ + p)[i]);
        }
    }
    crate::path::lemma_replaced_prefix("/"@, p, host, web);
    let q = crate::path::replaced(p, host, web);
    let x = "https://github.com"@;
    assert(crate::path::replaced(u, host, web) =~= x + ("/"@ + q));
    let pulls = "/pulls/"@;
    assert forall|i: int| 0 <= i < x.len() implies !#[trigger] crate::path::occurs_at(
        x + ("/"@ + q),
        pulls,
        i,
    ) by {
        let s = x + ("/"@ + q);
        if crate::path::occurs_at(s, pulls, i) {
            assert(s.subrange(i, i + pulls.len())[0] == s[i]);
            assert(s.subrange(i, i + pulls.len())[1] == s[i + 1]);
        }
    }
    crate::path::lemma_replaced_prefix(x, "/"@ + q, pulls, "/pull/"@);
    let w = crate::path::replaced(x + ("/"@ + q), pulls, "/pull/"@);
    crate::path::lemma_replaced_same(w, "/issues/"@);
    if forall|i: int| !#[trigger] crate::path::occurs_at(p, host, i) {
        assert(p + Seq::<char>::empty() =~= p);
        crate::path::lemma_replaced_prefix(p, Seq::<char>::empty(), host, web);
        assert(p + crate::path::replaced(Seq::<char>::empty(), host, web) =~= p);
    }
}

/// `b` reloads the issue list of `a` after a tab or filter change: the
/// list empties and, when a repository is active, is fetched again.
pub open spec fn issues_reloaded(a: App, b: App, cmd: Command) -> bool {
    match a.active() {
        Some(r) => {
            &&& b == (App {
                issues_loading: true,
                issues: b.issues,
                issues_selected: 0,
                ..a
            })
            &&& b.issues@.len() == 0
            &&& issues_request(a, r, IssueListPurpose::Reload, cmd)
        },
        None => no_op(a, b, cmd),
    }
}

fn reload_issues(app: &mut App) -> (cmd: Command)
    ensures
        issues_reloaded(*old(app), *final(app), cmd),
{
    match app.active_repo() {
        Some(r) => {
            let r = r.clone();
            app.issues_loading = true;
            app.issues = Vec::new();
            app.issues_selected = 0;
            issues_command(app, &r, IssueListPurpose::Reload)
        },
        None => Command::Nothing,
    }
}

/// The other issue tab.
pub open spec fn other_tab(t: IssueTab) -> IssueTab {
    match t {
        IssueTab::Issues => IssueTab::PullRequests,
        IssueTab::PullRequests => IssueTab::Issues,
    }
}

/// What a key that acts on the list or its selection does in the issues view.
pub open spec fn issues_action_step(a: App, b: App, key: Key, cmd: Command) -> bool {
    if key == Key::Tab {
        issues_reloaded(App { issue_tab: other_tab(a.issue_tab), ..a }, b, cmd)
    } else if key == Key::Char('f') {
        issues_reloaded(App { issue_filter: filter_after(a.issue_filter), ..a }, b, cmd)
    } else if key == Key::Char('n') {
        cmd is Nothing && if a.issue_tab == IssueTab::Issues {
            &&& b == (App {
                new_issue_title: b.new_issue_title,
                new_issue_body: b.new_issue_body,
                new_issue_focus_body: false,
                state: AppState::CreatingIssue,
                ..a
            })
            &&& holds_text(b.new_issue_title, Seq::empty())
            &&& holds_text(b.new_issue_body, Seq::empty())
        } else {
            b == a
        }
    } else if key == Key::Char('x') {
        b == a && match (opt_at(a.issues@, a.issues_selected as int), a.active()) {
            (Some(i), Some(r)) => if !i.pull_request && i.state@ == "open"@ {
                cmd matches Command::CloseIssue { owner, repo, number } && owner == r.owner && repo
                    == r.name && number == i.number
            } else {
                cmd is Nothing
            },
            _ => cmd is Nothing,
        }
    } else if key == Key::Enter || key == Key::Char('l') {
        match opt_at(a.issues@, a.issues_selected as int) {
            None => no_op(a, b, cmd),
            Some(i) => {
                let opened = App {
                    current_issue: b.current_issue,
                    issue_comments: b.issue_comments,
                    issue_scroll: 0,
                    ..a
                };
                &&& b.current_issue matches Some(c) && c.labels@ == i.labels@ && c == (Issue {
                    labels: c.labels,
                    ..i
                })
                &&& b.issue_comments@.len() == 0
                &&& match a.active() {
                    Some(r) => b == opened && (cmd matches Command::LoadComments {
                        owner,
                        repo,
                        number,
                    } && owner == r.owner && repo == r.name && number == i.number),
                    None => b == (App { state: AppState::ViewingIssue, ..opened }) && cmd is Nothing,
                }
            },
        }
    } else if key == Key::Char('o') {
        b == a && match opt_at(a.issues@, a.issues_selected as int) {
            Some(i) => opens(cmd, i.html_url),
            None => cmd is Nothing,
        }
    } else {
        no_op(a, b, cmd)
    }
}

/// What a navigation key does in the issues view.
pub open spec fn issues_nav_step(a: App, b: App, key: Key, cmd: Command) -> bool {
    if key == Key::Char('q') {
        b == a && cmd is Quit
    } else if key == Key::Esc || key == Key::Char('h') {
        goes_to(a, b, a.home_state(), cmd)
    } else if key == Key::Char('1') {
        b == (App { tab: Tab::Search, state: AppState::Browsing, ..a }) && cmd is Nothing
    } else if key == Key::Char('2') {
        repos_switch_begun(a, b, cmd)
    } else if key == Key::Char('3') {
        notifications_begun(a, b, cmd)
    } else if key == Key::Char('j') || key == Key::Down {
        cmd is Nothing && if a.issues@.len() == 0 {
            b == a
        } else {
            b == (App {
                issues_selected: wrap_next(a.issues_selected as int, a.issues@.len() as int)
                    as usize,
                ..a
            })
        }
    } else if key == Key::Char('k') || key == Key::Up {
        cmd is Nothing && if a.issues@.len() == 0 {
            b == a
        } else {
            b == (App {
                issues_selected: wrap_prev(a.issues_selected as int, a.issues@.len() as int)
                    as usize,
                ..a
            })
        }
    } else if key == Key::Char('J') {
        b == (App { issue_scroll: inc_sat(a.issue_scroll), ..a }) && cmd is Nothing
    } else if key == Key::Char('K') {
        b == (App { issue_scroll: dec_sat(a.issue_scroll), ..a }) && cmd is Nothing
    } else {
        no_op(a, b, cmd)
    }
}

/// The keys of the issues view that act on the list or its selection.
pub open spec fn is_issues_action_key(key: Key) -> bool {
    key == Key::Tab || key == Key::Char('f') || key == Key::Char('n') || key == Key::Char('x')
        || key == Key::Enter || key == Key::Char('l') || key == Key::Char('o')
}

/// What a key does in the issues view.
pub open spec fn issues_step(a: App, b: App, key: Key, cmd: Command) -> bool {
    if is_issues_action_key(key) {
        issues_action_step(a, b, key, cmd)
    } else {
        issues_nav_step(a, b, key, cmd)
    }
}

#[verifier::rlimit(50)]
fn handle_issues_nav(app: &mut App, key: Key) -> (cmd: Command)
    requires
        old(app).wf(),
    ensures
        final(app).wf(),
        issues_nav_step(*old(app), *final(app), key, cmd),
{
    if key == Key::Char('q') {
        Command::Quit
    } else if key == Key::Esc || key == Key::Char('h') {
        app.state = match app.tab {
            Tab::MyRepos => AppState::MyRepos,
            Tab::Search => AppState::Browsing,
        };
        Command::Nothing
    } else if key == Key::Char('1') {
        app.tab = Tab::Search;
        app.state = AppState::Browsing;
        Command::Nothing
    } else if key == Key::Char('2') {
        switch_to_my_repos(app)
    } else if key == Key::Char('3') {
        begin_notifications(app)
    } else if key == Key::Char('j') || key == Key::Down {
        if app.issues.len() > 0 {
            app.issues_selected = crate::app::step_down(app.issues_selected, app.issues.len());
        }
        Command::Nothing
    } else if key == Key::Char('k') || key == Key::Up {
        if app.issues.len() > 0 {
            app.issues_selected = crate::app::step_up(app.issues_selected, app.issues.len());
        }
        Command::Nothing
    } else if key == Key::Char('J') {
        app.issue_scroll = sat_inc(app.issue_scroll);
        Command::Nothing
    } else if key == Key::Char('K') {
        app.issue_scroll = sat_dec(app.issue_scroll);
        Command::Nothing
    } else {
        Command::Nothing
    }
}

fn open_issue_form(app: &mut App)
    requires
        old(app).wf(),
    ensures
        final(app).wf(),
        *final(app) == (App {
            new_issue_title: final(app).new_issue_title,
            new_issue_body: final(app).new_issue_body,
            new_issue_focus_body: false,
            state: AppState::CreatingIssue,
            ..*old(app)
        }),
        holds_text(final(app).new_issue_title, Seq::empty()),
        holds_text(final(app).new_issue_body, Seq::empty()),
{
    app.new_issue_title.clear();
    app.new_issue_body.clear();
    proof {
        crate::text::lemma_char_pos(app.new_issue_title.value@, 0);
        crate::text::lemma_char_pos(app.new_issue_body.value@, 0);
    }
    app.new_issue_focus_body = false;
    app.state = AppState::CreatingIssue;
}

fn open_issue(app: &mut App) -> (cmd: Command)
    requires
        old(app).wf(),
    ensures
        final(app).wf(),
        issues_action_step(*old(app), *final(app), Key::Enter, cmd),
{
    let issue = match get_at_issue(&app.issues, app.issues_selected) {
        Some(i) => i,
        None => return Command::Nothing,
    };
    let number = issue.number;
    app.current_issue = Some(issue);
    app.issue_comments = Vec::new();
    app.issue_scroll = 0;
    match app.active_repo() {
        Some(r) => Command::LoadComments { owner: r.owner.clone(), repo: r.name.clone(), number },
        None => {
            app.state = AppState::ViewingIssue;
            Command::Nothing
        },
    }
}

fn get_at_issue(v: &Vec<Issue>, i: usize) -> (r: Option<Issue>)
    ensures
        match r {
            Some(x) => opt_at(v@, i as int) matches Some(y) && x.labels@ == y.labels@ && x == (Issue {
                labels: x.labels,
                ..y
            }),
            None => opt_at(v@, i as int) is None,
        },
{
    if i < v.len() {
        Some(v[i].clone())
    } else {
        None
    }
}

#[verifier::rlimit(50)]
fn handle_issues_action(app: &mut App, key: Key) -> (cmd: Command)
    requires
        old(app).wf(),
    ensures
        final(app).wf(),
        issues_action_step(*old(app), *final(app), key, cmd),
{
    if key == Key::Tab {
        app.issue_tab = match app.issue_tab {
            IssueTab::Issues => IssueTab::PullRequests,
            IssueTab::PullRequests => IssueTab::Issues,
        };
        reload_issues(app)
    } else if key == Key::Char('f') {
        app.issue_filter = app.issue_filter.next();
        reload_issues(app)
    } else if key == Key::Char('n') {
        if app.issue_tab == IssueTab::Issues {
            open_issue_form(app);
        }
        Command::Nothing
    } else if key == Key::Char('x') {
        let (number, closable) = match get_at(&app.issues, app.issues_selected) {
            Some(i) => (i.number, !i.pull_request && eq_str(i.state.as_str(), "open")),
            None => (0, false),
        };
        if !closable {
            return Command::Nothing;
        }
        match app.active_repo() {
            Some(r) => Command::CloseIssue { owner: r.owner.clone(), repo: r.name.clone(), number },
            None => Command::Nothing,
        }
    } else if key == Key::Enter || key == Key::Char('l') {
        open_issue(app)
    } else if key == Key::Char('o') {
        match get_at(&app.issues, app.issues_selected) {
            Some(i) => Command::OpenUrl { url: i.html_url.clone() },
            None => Command::Nothing,
        }
    } else {
        Command::Nothing
    }
}

fn handle_viewing_issues(app: &mut App, key: Key) -> (cmd: Command)
    requires
        old(app).wf(),
    ensures
        final(app).wf(),
        issues_step(*old(app), *final(app), key, cmd),
{
    if key == Key::Tab || key == Key::Char('f') || key == Key::Char('n') || key == Key::Char('x')
        || key == Key::Enter || key == Key::Char('l') || key == Key::Char('o') {
        handle_issues_action(app, key)
    } else {
        handle_issues_nav(app, key)
    }
}

/// What a key does while reading an issue.
pub open spec fn issue_step(a: App, b: App, key: Key, cmd: Command) -> bool {
    if key == Key::Char('q') {
        b == a && cmd is Quit
    } else if key == Key::Esc || key == Key::Char('h') {
        b == (App {
            current_issue: None,
            issue_scroll: 0,
            state: AppState::ViewingIssues,
            ..a
        }) && cmd is Nothing
    } else if key == Key::Char('j') || key == Key::Down || key == Key::Char('J') {
        b == (App { issue_scroll: inc_sat(a.issue_scroll), ..a }) && cmd is Nothing
    } else if key == Key::Char('k') || key == Key::Up || key == Key::Char('K') {
        b == (App { issue_scroll: dec_sat(a.issue_scroll), ..a }) && cmd is Nothing
    } else {
        no_op(a, b, cmd)
    }
}

fn handle_viewing_issue(app: &mut App, key: Key) -> (cmd: Command)
    requires
        old(app).wf(),
    ensures
        final(app).wf(),
        issue_step(*old(app), *final(app), key, cmd),
{
    if key == Key::Char('q') {
        Command::Quit
    } else if key == Key::Esc || key == Key::Char('h') {
        app.current_issue = None;
        app.issue_scroll = 0;
        app.state = AppState::ViewingIssues;
        Command::Nothing
    } else if key == Key::Char('j') || key == Key::Down || key == Key::Char('J') {
        app.issue_scroll = sat_inc(app.issue_scroll);
        Command::Nothing
    } else if key == Key::Char('k') || key == Key::Up || key == Key::Char('K') {
        app.issue_scroll = sat_dec(app.issue_scroll);
        Command::Nothing
    } else {
        Command::Nothing
    }
}

/// `b` has submitted the issue form of `a` (whose body has the focus), or
/// shows why not.
pub open spec fn issue_submitted(a: App, b: App, cmd: Command) -> bool {
    let title = trimmed(a.new_issue_title.value@);
    if title.len() == 0 {
        shows_error(a, b, "title cannot be empty"@, Seq::empty()) && cmd is Nothing
    } else {
        b == a && match a.active() {
            Some(r) => cmd matches Command::CreateIssue { owner, repo, title: t, body } && owner
                == r.owner && repo == r.name && t@ == title && body@ == trimmed(
                a.new_issue_body.value@,
            ),
            None => cmd is Nothing,
        }
    }
}

fn submit_issue(app: &mut App) -> (cmd: Command)
    ensures
        issue_submitted(*old(app), *final(app), cmd),
{
    let title = trim(app.new_issue_title.as_str());
    if title.as_str().unicode_len() == 0 {
        app.set_error(String::from_str("title cannot be empty"));
        proof {
            reveal_strlit("title cannot be empty");
            assert("title cannot be empty"@ + Seq::<char>::empty() =~= "title cannot be empty"@);
        }
        return Command::Nothing;
    }
    let body = trim(app.new_issue_body.as_str());
    match app.active_repo() {
        Some(r) => Command::CreateIssue { owner: r.owner.clone(), repo: r.name.clone(), title, body },
        None => Command::Nothing,
    }
}

/// What a key does in the issue form: Tab moves the focus between title and
/// body, Enter on the title moves to the body and on the body submits, the
/// other keys edit the focused field.
pub open spec fn creating_issue_step(a: App, b: App, key: Key, cmd: Command) -> bool {
    if key == Key::Esc {
        goes_to(a, b, AppState::ViewingIssues, cmd)
    } else if key == Key::Tab {
        b == (App { new_issue_focus_body: !a.new_issue_focus_body, ..a }) && cmd is Nothing
    } else if key == Key::Enter {
        if !a.new_issue_focus_body {
            b == (App { new_issue_focus_body: true, ..a }) && cmd is Nothing
        } else {
            issue_submitted(a, b, cmd)
        }
    } else if a.new_issue_focus_body {
        &&& b == (App { new_issue_body: b.new_issue_body, ..a })
        &&& edited(a.new_issue_body, b.new_issue_body, key)
        &&& cmd is Nothing
    } else {
        &&& b == (App { new_issue_title: b.new_issue_title, ..a })
        &&& edited(a.new_issue_title, b.new_issue_title, key)
        &&& cmd is Nothing
    }
}

fn handle_creating_issue(app: &mut App, key: Key) -> (cmd: Command)
    requires
        old(app).wf(),
    ensures
        final(app).wf(),
        creating_issue_step(*old(app), *final(app), key, cmd),
{
    if key == Key::Esc {
        app.state = AppState::ViewingIssues;
        Command::Nothing
    } else if key == Key::Tab {
        app.new_issue_focus_body = !app.new_issue_focus_body;
        Command::Nothing
    } else if key == Key::Enter {
        if !app.new_issue_focus_body {
            app.new_issue_focus_body = true;
            Command::Nothing
        } else {
            submit_issue(app)
        }
    } else if app.new_issue_focus_body {
        edit_field(&mut app.new_issue_body, key);
        Command::Nothing
    } else {
        edit_field(&mut app.new_issue_title, key);
        Command::Nothing
    }
}

/// What a key does in the notifications view.
pub open spec fn notifications_step(a: App, b: App, key: Key, cmd: Command) -> bool {
    if key == Key::Char('q') {
        b == a && cmd is Quit
    } else if key == Key::Esc || key == Key::Char('h') {
        goes_to(a, b, a.home_state(), cmd)
    } else if key == Key::Char('1') {
        b == (App { tab: Tab::Search, state: AppState::Browsing, ..a }) && cmd is Nothing
    } else if key == Key::Char('2') {
        repos_switch_begun(a, b, cmd)
    } else if key == Key::Char('j') || key == Key::Down {
        cmd is Nothing && if a.notifications@.len() == 0 {
            b == a
        } else {
            b == (App {
                notifications_selected: wrap_next(
                    a.notifications_selected as int,
                    a.notifications@.len() as int,
                ) as usize,
                ..a
            })
        }
    } else if key == Key::Char('k') || key == Key::Up {
        cmd is Nothing && if a.notifications@.len() == 0 {
            b == a
        } else {
            b == (App {
                notifications_selected: wrap_prev(
                    a.notifications_selected as int,
                    a.notifications@.len() as int,
                ) as usize,
                ..a
            })
        }
    } else if key == Key::Char('r') {
        b == a && match opt_at(a.notifications@, a.notifications_selected as int) {
            Some(n) => cmd matches Command::MarkRead { id } && id == n.id,
            None => cmd is Nothing,
        }
    } else if key == Key::Char('R') {
        b == a && cmd is MarkAllRead
    } else if key == Key::Char('f') {
        notifications_begun(
            App { notifications_unread_only: !a.notifications_unread_only, ..a },
            b,
            cmd,
        )
    } else if key == Key::Char('o') {
        b == a && match opt_at(a.notifications@, a.notifications_selected as int) {
            Some(n) => match n.subject_url {
                Some(u) => cmd matches Command::OpenUrl { url } && url@ == web_url(u@),
                None => cmd is Nothing,
            },
            None => cmd is Nothing,
        }
    } else {
        no_op(a, b, cmd)
    }
}

#[verifier::rlimit(60)]
fn handle_viewing_notifications(app: &mut App, key: Key) -> (cmd: Command)
    requires
        old(app).wf(),
    ensures
        final(app).wf(),
        notifications_step(*old(app), *final(app), key, cmd),
{
    if key == Key::Char('q') {
        Command::Quit
    } else if key == Key::Esc || key == Key::Char('h') {
        app.state = match app.tab {
            Tab::MyRepos => AppState::MyRepos,
            Tab::Search => AppState::Browsing,
        };
        Command::Nothing
    } else if key == Key::Char('1') {
        app.tab = Tab::Search;
        app.state = AppState::Browsing;
        Command::Nothing
    } else if key == Key::Char('2') {
        switch_to_my_repos(app)
    } else if key == Key::Char('j') || key == Key::Down {
        if app.notifications.len() > 0 {
            app.notifications_selected = crate::app::step_down(
                app.notifications_selected,
                app.notifications.len(),
            );
        }
        Command::Nothing
    } else if key == Key::Char('k') || key == Key::Up {
        if app.notifications.len() > 0 {
            app.notifications_selected = crate::app::step_up(
                app.notifications_selected,
                app.notifications.len(),
            );
        }
        Command::Nothing
    } else if key == Key::Char('r') {
        match get_at(&app.notifications, app.notifications_selected) {
            Some(n) => Command::MarkRead { id: n.id.clone() },
            None => Command::Nothing,
        }
    } else if key == Key::Char('R') {
        Command::MarkAllRead
    } else if key == Key::Char('f') {
        app.notifications_unread_only = !app.notifications_unread_only;
        begin_notifications(app)
    } else if key == Key::Char('o') {
        match get_at(&app.notifications, app.notifications_selected) {
            Some(n) => match &n.subject_url {
                Some(u) => Command::OpenUrl { url: notification_web_url(u.as_str()) },
                None => Command::Nothing,
            },
            None => Command::Nothing,
        }
    } else {
        Command::Nothing
    }
}

/// What a key press does, by the state the interface is in. Error and help
/// overlays close on any key; the states without key handling ignore keys.
pub open spec fn key_step(
    a: App,
    b: App,
    key: Key,
    now: u64,
    home: Seq<char>,
    cwd: Seq<char>,
    cmd: Command,
) -> bool {
    match a.state {
        AppState::Searching => searching_step(a, b, key, cmd),
        AppState::Browsing => browsing_step(a, b, key, now, home, cwd, cmd),
        AppState::MyRepos => my_repos_step(a, b, key, now, home, cwd, cmd),
        AppState::FileBrowsing => file_browsing_step(a, b, key, cmd),
        AppState::Cloning => cloning_step(a, b, key, now, home, cwd, cmd),
        AppState::SparseCloning => sparse_cloning_step(a, b, key, now, home, cwd, cmd),
        AppState::FileSaving => file_saving_step(a, b, key, now, home, cwd, cmd),
        AppState::Renaming => renaming_step(a, b, key, cmd),
        AppState::ConfirmDelete => confirm_delete_step(a, b, key, cmd),
        AppState::ViewingProfile => profile_step(a, b, key, now, home, cwd, cmd),
        AppState::Error(_) => goes_to(a, b, a.home_state(), cmd),
        AppState::Help => goes_to(a, b, a.home_state(), cmd),
        AppState::ViewingIssues => issues_step(a, b, key, cmd),
        AppState::ViewingIssue => issue_step(a, b, key, cmd),
        AppState::CreatingIssue => creating_issue_step(a, b, key, cmd),
        AppState::ViewingNotifications => notifications_step(a, b, key, cmd),
        _ => no_op(a, b, cmd),
    }
}

/// Handles one key press at time `now`; `home` and `cwd` are the home and
/// working directories that typed paths are expanded against. A returned
/// `Command::Quit` means the application should quit.
pub fn handle_key(app: &mut App, key: Key, now: u64, home: &str, cwd: &str) -> (cmd: Command)
    requires
        old(app).wf(),
    ensures
        final(app).wf(),
        key_step(*old(app), *final(app), key, now, home@, cwd@, cmd),
{
    match &app.state {
        AppState::Searching => handle_searching(app, key),
        AppState::Browsing => handle_browsing(app, key, now, home, cwd),
        AppState::MyRepos => handle_my_repos(app, key, now, home, cwd),
        AppState::FileBrowsing => handle_file_browsing(app, key),
        AppState::Cloning => handle_cloning(app, key, now, home, cwd),
        AppState::SparseCloning => handle_sparse_cloning(app, key, now, home, cwd),
        AppState::FileSaving => handle_file_saving(app, key, now, home, cwd),
        AppState::Renaming => handle_renaming(app, key),
        AppState::ConfirmDelete => handle_confirm_delete(app, key),
        AppState::ViewingProfile => handle_viewing_profile(app, key, now, home, cwd),
        AppState::Error(_) | AppState::Help => {
            app.state = if app.tab == Tab::MyRepos {
                AppState::MyRepos
            } else {
                AppState::Browsing
            };
            Command::Nothing
        },
        AppState::ViewingIssues => handle_viewing_issues(app, key),
        AppState::ViewingIssue => handle_viewing_issue(app, key),
        AppState::CreatingIssue => handle_creating_issue(app, key),
        AppState::ViewingNotifications => handle_viewing_notifications(app, key),
        _ => Command::Nothing,
    }
}

// ───────────────────────── laws ─────────────────────────

/// The path that the file browser of `a` shows: the last one entered, or
/// the root (empty).
pub open spec fn browsed_path(a: App) -> Seq<char> {
    if a.file_path_stack@.len() == 0 {
        Seq::empty()
    } else {
        a.file_path_stack@.last()@
    }
}

/// In the file browser, entering the selected directory and then going up
/// with `h` restores the path stack and lists the directory the browser
/// was in before, of the same repository.
pub proof fn law_enter_then_up(
    a: App,
    b: App,
    c: App,
    open_key: Key,
    now1: u64,
    now2: u64,
    home: Seq<char>,
    cwd: Seq<char>,
    cmd1: Command,
    cmd2: Command,
)
    requires
        a.state is FileBrowsing,
        open_key == Key::Enter || open_key == Key::Char('l'),
        opt_at(a.file_entries@, a.file_selected as int) matches Some(e) && e.entry_type
            == EntryType::Dir,
        a.active() is Some,
        key_step(a, b, open_key, now1, home, cwd, cmd1),
        key_step(b, c, Key::Char('h'), now2, home, cwd, cmd2),
    ensures
        c.file_path_stack@ == a.file_path_stack@,
        c.state is FileBrowsing,
        cmd2 matches Command::ListDir { owner, repo, path, nested } && !nested && path@
            == browsed_path(a) && owner == a.active().unwrap().owner && repo
            == a.active().unwrap().name,
{
    let e = a.file_entries@[a.file_selected as int];
    assert(entry_opened(a, b, cmd1));
    assert(b.file_path_stack@ == a.file_path_stack@.push(e.path));
    assert(b.state is FileBrowsing);
    assert(b.active() == a.active());
    assert(went_up(b, c, cmd2));
    assert(b.file_path_stack@.drop_last() =~= a.file_path_stack@);
}

/// Leaving the file browser with Esc right after opening it returns to the
/// view it was opened from: the profile view when it came from there,
/// otherwise the list of the current tab.
pub proof fn law_files_round_trip(
    a: App,
    b: App,
    c: App,
    r: Repo,
    from_profile: bool,
    now: u64,
    home: Seq<char>,
    cwd: Seq<char>,
    cmd1: Command,
    cmd2: Command,
)
    requires
        files_begun(
            a,
            b,
            r,
            if from_profile {
                Some(AppState::ViewingProfile)
            } else {
                None
            },
            cmd1,
        ),
        key_step(b, c, Key::Esc, now, home, cwd, cmd2),
    ensures
        c.state == (if from_profile {
            AppState::ViewingProfile
        } else {
            a.home_state()
        }),
        c.prev_state is None,
        c.tab == a.tab,
        cmd2 is Nothing,
{
    assert(b.state is FileBrowsing);
    assert(b.file_path_stack@.len() == 0);
    assert(file_browser_left(b, c, cmd2));
}

/// Confirming the deletion with `y` and then receiving success removes
/// exactly the selected repository, keeps the selection on a listed
/// repository (at 0 when none is left), and returns to the list with the
/// status message.
pub proof fn law_confirm_then_delete(
    a: App,
    b: App,
    c: App,
    key: Key,
    now1: u64,
    now2: u64,
    home: Seq<char>,
    cwd: Seq<char>,
    cmd: Command,
)
    requires
        a.state is ConfirmDelete,
        key == Key::Char('y') || key == Key::Char('Y'),
        a.my_repos_selected < a.my_repos@.len(),
        key_step(a, b, key, now1, home, cwd, cmd),
        cmd matches Command::Delete { full_name, .. } && delete_done(b, c, full_name@, now2),
    ensures
        cmd matches Command::Delete { owner, repo, full_name } && owner
            == a.my_repos@[a.my_repos_selected as int].owner && repo
            == a.my_repos@[a.my_repos_selected as int].name && full_name
            == a.my_repos@[a.my_repos_selected as int].full_name,
        c.my_repos@ == a.my_repos@.remove(a.my_repos_selected as int),
        c.my_repos@.len() == 0 ==> c.my_repos_selected == 0,
        c.my_repos@.len() > 0 ==> c.my_repos_selected < c.my_repos@.len(),
        c.state is MyRepos,
        c.status_msg matches Some(m) && m@ == "deleted "@
            + a.my_repos@[a.my_repos_selected as int].full_name@,
{
    assert(confirm_delete_step(a, b, key, cmd));
    assert(b == a);
}

/// A clone prompt opened from the search results or the user's repositories
/// with a default clone path, and confirmed as it was filled in, clones the
/// active repository into a directory named after it under that path.
pub proof fn law_clone_default_destination(
    a: App,
    b: App,
    c: App,
    r: Repo,
    now: u64,
    home: Seq<char>,
    cwd: Seq<char>,
    cmd: Command,
)
    requires
        a.state is Browsing || a.state is MyRepos,
        !(a.prev_state matches Some(s) && s is ViewingProfile),
        a.active() == Some(r),
        clone_prompt_opened(a, b, home, cwd),
        key_step(b, c, Key::Enter, now, home, cwd, cmd),
        crate::app::default_destination(a.config, Some(r.name@), home, cwd).len() > 0,
        crate::app::default_destination(a.config, Some(r.name@), home, cwd)[0] == '/',
        trimmed(crate::app::default_destination(a.config, Some(r.name@), home, cwd))
            == crate::app::default_destination(a.config, Some(r.name@), home, cwd),
    ensures
        cmd matches Command::Clone { url, path } && url == r.clone_url && path@
            == crate::app::default_destination(a.config, Some(r.name@), home, cwd),
{
    let dest = crate::app::default_destination(a.config, Some(r.name@), home, cwd);
    assert(b.state is Cloning);
    assert(b.active() == Some(r));
    assert(b.clone_path_input.value@ == dest);
    assert(expanded_path(trimmed(dest), home, cwd) == dest);
    assert(clone_started(b, c, r, now, home, cwd, cmd));
}

/// Tab in the issues view switches between issues and pull requests: the
/// tab changes, a second Tab returns to the tab the view started on, and
/// with a repository open the list of the new tab is fetched.
pub proof fn law_issue_tab_toggles(
    a: App,
    b: App,
    c: App,
    now1: u64,
    now2: u64,
    home: Seq<char>,
    cwd: Seq<char>,
    cmd1: Command,
    cmd2: Command,
)
    requires
        a.state is ViewingIssues,
        key_step(a, b, Key::Tab, now1, home, cwd, cmd1),
        key_step(b, c, Key::Tab, now2, home, cwd, cmd2),
    ensures
        b.issue_tab != a.issue_tab,
        c.issue_tab == a.issue_tab,
        b.state is ViewingIssues,
        a.active() is Some ==> (cmd1 matches Command::ListIssues { pull_requests, .. }
            && pull_requests == (a.issue_tab == IssueTab::Issues)),
        a.active() is Some ==> (cmd2 matches Command::ListIssues { pull_requests, .. }
            && pull_requests == (a.issue_tab == IssueTab::PullRequests)),
{
    assert(issues_action_step(a, b, Key::Tab, cmd1));
    assert(b.state is ViewingIssues);
    assert(b.active() == a.active());
    assert(issues_action_step(b, c, Key::Tab, cmd2));
}

} // verus!

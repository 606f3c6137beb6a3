//! All state of the interface, and the operations on it that do not need
//! the network: list navigation, the language filter, status messages and
//! their expiry, and which repository is the active one.
use vstd::prelude::*;
use crate::config::{views, Config};
use crate::input::TextInput;
use crate::path::{expand_path, expanded_path, joined, trim, trimmed};
use crate::types::{
    AppState, FileEntry, Issue, IssueComment, IssueFilter, IssueTab, Notification, RateLimit, Repo,
    SparseStep, Tab, UserProfile,
};

verus! {

/// How many entries the language filter cycles through.
pub const LANGUAGE_COUNT: usize = 12;

/// The language filter at position `i` of the cycle (`None` means any language).
pub open spec fn language_name(i: int) -> Option<Seq<char>> {
    if i == 0 {
        None
    } else if i == 1 {
        Some("Rust"@)
    } else if i == 2 {
        Some("Python"@)
    } else if i == 3 {
        Some("Go"@)
    } else if i == 4 {
        Some("TypeScript"@)
    } else if i == 5 {
        Some("JavaScript"@)
    } else if i == 6 {
        Some("C"@)
    } else if i == 7 {
        Some("C++"@)
    } else if i == 8 {
        Some("Java"@)
    } else if i == 9 {
        Some("Zig"@)
    } else if i == 10 {
        Some("Nix"@)
    } else {
        Some("Shell"@)
    }
}

/// The language filter at position `i` of the cycle.
pub fn language_at(i: usize) -> (r: Option<&'static str>)
    requires
        i < LANGUAGE_COUNT,
    ensures
        match r {
            Some(s) => language_name(i as int) == Some(s@),
            None => language_name(i as int) is None,
        },
{
    match i {
        0 => None,
        1 => Some("Rust"),
        2 => Some("Python"),
        3 => Some("Go"),
        4 => Some("TypeScript"),
        5 => Some("JavaScript"),
        6 => Some("C"),
        7 => Some("C++"),
        8 => Some("Java"),
        9 => Some("Zig"),
        10 => Some("Nix"),
        _ => Some("Shell"),
    }
}

/// The element at `i`, if there is one.
pub open spec fn opt_at<T>(s: Seq<T>, i: int) -> Option<T> {
    if 0 <= i < s.len() {
        Some(s[i])
    } else {
        None
    }
}

/// `v.get(i)`.
pub fn get_at<T>(v: &Vec<T>, i: usize) -> (r: Option<&T>)
    ensures
        match r {
            Some(x) => opt_at(v@, i as int) == Some(*x),
            None => opt_at(v@, i as int) is None,
        },
{
    if i < v.len() {
        Some(&v[i])
    } else {
        None
    }
}

/// The selection after moving down a list of `len` entries: wraps to the top.
pub open spec fn wrap_next(sel: int, len: int) -> int {
    (sel + 1) % len
}

/// The selection after moving up a list of `len` entries: wraps to the bottom.
pub open spec fn wrap_prev(sel: int, len: int) -> int {
    if sel == 0 {
        len - 1
    } else {
        sel - 1
    }
}

pub fn step_down(sel: usize, len: usize) -> (r: usize)
    requires
        len > 0,
        sel < usize::MAX,
    ensures
        r == wrap_next(sel as int, len as int),
        r < len,
{
    (sel + 1) % len
}

pub fn step_up(sel: usize, len: usize) -> (r: usize)
    requires
        len > 0,
    ensures
        r == wrap_prev(sel as int, len as int),
{
    if sel == 0 {
        len - 1
    } else {
        sel - 1
    }
}

/// Milliseconds after which a pending README fetch fires.
pub const README_DEBOUNCE_MS: u64 = 300;

/// Milliseconds for which a status message stays up.
pub const STATUS_TTL_MS: u64 = 4000;

/// The state of the interface. Times are milliseconds on the clock that the
/// caller passes in as `now`.
pub struct App {
    pub state: AppState,
    pub results: Vec<Repo>,
    pub selected: usize,
    pub search_query: TextInput,
    /// Earlier search queries, the most recent first.
    pub history: Vec<String>,
    /// Which history entry the search box holds after Up and Down, if any.
    pub history_pos: Option<usize>,
    pub language_filter: Option<String>,
    pub readme_content: Option<String>,
    pub readme_scroll: u16,
    pub clone_path_input: TextInput,
    pub status_msg: Option<String>,
    pub status_set_at: Option<u64>,
    pub loading: bool,
    // file browser
    pub file_entries: Vec<FileEntry>,
    pub file_selected: usize,
    pub file_path_stack: Vec<String>,
    pub file_content: Option<String>,
    pub file_scroll: u16,
    pub readme_pending: Option<u64>,
    /// Full names of the repositories starred in this session.
    pub starred: Vec<String>,
    pub rate_limit: Option<RateLimit>,
    pub language_idx: usize,
    // tab
    pub tab: Tab,
    // my repos
    pub my_repos: Vec<Repo>,
    pub my_repos_selected: usize,
    pub my_repos_loading: bool,
    pub rename_input: TextInput,
    // profile view
    pub profile_user: Option<UserProfile>,
    pub profile_repos: Vec<Repo>,
    pub profile_repos_selected: usize,
    pub profile_loading: bool,
    /// The state before entering the file browser.
    pub prev_state: Option<AppState>,
    // sparse clone
    pub sparse_path_input: TextInput,
    pub sparse_dirs_input: TextInput,
    pub sparse_step: SparseStep,
    // file save
    pub file_save_path_input: TextInput,
    // issues / PRs
    pub issues: Vec<Issue>,
    pub issues_selected: usize,
    pub issue_tab: IssueTab,
    pub issue_filter: IssueFilter,
    pub issues_loading: bool,
    pub current_issue: Option<Issue>,
    pub issue_comments: Vec<IssueComment>,
    pub issue_scroll: u16,
    pub new_issue_title: TextInput,
    pub new_issue_body: TextInput,
    /// Whether the body (rather than the title) has the focus.
    pub new_issue_focus_body: bool,
    // notifications
    pub notifications: Vec<Notification>,
    pub notifications_selected: usize,
    pub notifications_loading: bool,
    pub notifications_unread_only: bool,
    // config
    pub config: Config,
}

/// Whether the set of starred names holds `name`.
pub open spec fn starred_has(starred: Seq<String>, name: Seq<char>) -> bool {
    views(starred).contains(name)
}

impl App {
    /// Every text field has its cursor on a character boundary, the language
    /// index is in range, and the selections can move down without overflow.
    pub open spec fn wf(&self) -> bool {
        &&& self.search_query.wf()
        &&& self.clone_path_input.wf()
        &&& self.rename_input.wf()
        &&& self.sparse_path_input.wf()
        &&& self.sparse_dirs_input.wf()
        &&& self.file_save_path_input.wf()
        &&& self.new_issue_title.wf()
        &&& self.new_issue_body.wf()
        &&& self.language_idx < LANGUAGE_COUNT
        &&& self.selected < usize::MAX
        &&& self.my_repos_selected < usize::MAX
        &&& self.profile_repos_selected < usize::MAX
        &&& self.file_selected < usize::MAX
        &&& self.issues_selected < usize::MAX
        &&& self.notifications_selected < usize::MAX
    }

    /// The repository that actions apply to: the selected profile repository
    /// in the profile view (or in a file browser opened from it), otherwise
    /// the selection of the current tab.
    pub open spec fn active(&self) -> Option<Repo> {
        if self.state is ViewingProfile || (self.prev_state matches Some(s) && s is ViewingProfile) {
            opt_at(self.profile_repos@, self.profile_repos_selected as int)
        } else {
            match self.tab {
                Tab::MyRepos => opt_at(self.my_repos@, self.my_repos_selected as int),
                Tab::Search => opt_at(self.results@, self.selected as int),
            }
        }
    }

    /// The state that Esc and dismissal return to: the list of the current tab.
    pub open spec fn home_state(&self) -> AppState {
        if self.tab == Tab::MyRepos {
            AppState::MyRepos
        } else {
            AppState::Browsing
        }
    }

    pub fn new(config: Config) -> (r: Self)
        ensures
            r.wf(),
            r.state is Searching,
            r.tab == Tab::Search,
            r.results@.len() == 0,
            r.selected == 0,
            r.language_idx == 0,
            r.language_filter is None,
            r.readme_content is None,
            r.status_msg is None,
            r.readme_pending is None,
            r.starred@.len() == 0,
            r.issue_filter == IssueFilter::Open,
            r.issue_tab == IssueTab::Issues,
            r.sparse_step == SparseStep::Path,
            r.notifications_unread_only,
            r.config == config,
            r.readme_scroll == 0 && r.status_set_at is None && !r.loading,
            r.file_entries@.len() == 0 && r.file_selected == 0 && r.file_path_stack@.len() == 0,
            r.file_content is None && r.file_scroll == 0 && r.rate_limit is None,
            r.my_repos@.len() == 0 && r.my_repos_selected == 0 && !r.my_repos_loading,
            r.profile_user is None && r.profile_repos@.len() == 0,
            r.profile_repos_selected == 0 && !r.profile_loading && r.prev_state is None,
            r.issues@.len() == 0 && r.issues_selected == 0 && !r.issues_loading,
            r.current_issue is None && r.issue_comments@.len() == 0 && r.issue_scroll == 0,
            !r.new_issue_focus_body,
            r.notifications@.len() == 0 && r.notifications_selected == 0,
            !r.notifications_loading,
            r.search_query.value@.len() == 0 && r.search_query.cursor == 0,
            r.history@.len() == 0 && r.history_pos is None,
            r.clone_path_input.value@.len() == 0 && r.clone_path_input.cursor == 0,
            r.rename_input.value@.len() == 0 && r.rename_input.cursor == 0,
            r.sparse_path_input.value@.len() == 0 && r.sparse_path_input.cursor == 0,
            r.sparse_dirs_input.value@.len() == 0 && r.sparse_dirs_input.cursor == 0,
            r.file_save_path_input.value@.len() == 0 && r.file_save_path_input.cursor == 0,
            r.new_issue_title.value@.len() == 0 && r.new_issue_title.cursor == 0,
            r.new_issue_body.value@.len() == 0 && r.new_issue_body.cursor == 0,
    {
        App {
            state: AppState::Searching,
            results: Vec::new(),
            selected: 0,
            search_query: TextInput::new(),
            history: Vec::new(),
            history_pos: None,
            language_filter: None,
            readme_content: None,
            readme_scroll: 0,
            clone_path_input: TextInput::new(),
            status_msg: None,
            status_set_at: None,
            loading: false,
            file_entries: Vec::new(),
            file_selected: 0,
            file_path_stack: Vec::new(),
            file_content: None,
            file_scroll: 0,
            readme_pending: None,
            starred: Vec::new(),
            rate_limit: None,
            language_idx: 0,
            tab: Tab::Search,
            my_repos: Vec::new(),
            my_repos_selected: 0,
            my_repos_loading: false,
            rename_input: TextInput::new(),
            profile_user: None,
            profile_repos: Vec::new(),
            profile_repos_selected: 0,
            profile_loading: false,
            prev_state: None,
            sparse_path_input: TextInput::new(),
            sparse_dirs_input: TextInput::new(),
            sparse_step: SparseStep::Path,
            file_save_path_input: TextInput::new(),
            issues: Vec::new(),
            issues_selected: 0,
            issue_tab: IssueTab::Issues,
            issue_filter: IssueFilter::Open,
            issues_loading: false,
            current_issue: None,
            issue_comments: Vec::new(),
            issue_scroll: 0,
            new_issue_title: TextInput::new(),
            new_issue_body: TextInput::new(),
            new_issue_focus_body: false,
            notifications: Vec::new(),
            notifications_selected: 0,
            notifications_loading: false,
            notifications_unread_only: true,
            config,
        }
    }

    /// Pre-fill the clone path input with the configured default clone path
    /// (expanded) and the active repository's name under it, or leave it
    /// empty.
    pub fn prefill_clone_path(&mut self, home: &str, cwd: &str)
        requires
            old(self).wf(),
        ensures
            final(self).wf(),
            *final(self) == (App { clone_path_input: final(self).clone_path_input, ..*old(self) }),
            prefilled(
                final(self).clone_path_input,
                old(self).config,
                active_name(*old(self)),
                home@,
                cwd@,
            ),
    {
        let mut input = TextInput::new();
        let name = match self.active_repo() {
            Some(r) => Some(r.name.as_str()),
            None => None,
        };
        fill_default_path(&mut input, &self.config, name, home, cwd);
        self.clone_path_input = input;
    }

    /// Pre-fill the sparse clone path input the same way.
    pub fn prefill_sparse_path(&mut self, home: &str, cwd: &str)
        requires
            old(self).wf(),
        ensures
            final(self).wf(),
            *final(self) == (App { sparse_path_input: final(self).sparse_path_input, ..*old(self) }),
            prefilled(
                final(self).sparse_path_input,
                old(self).config,
                active_name(*old(self)),
                home@,
                cwd@,
            ),
    {
        let mut input = TextInput::new();
        let name = match self.active_repo() {
            Some(r) => Some(r.name.as_str()),
            None => None,
        };
        fill_default_path(&mut input, &self.config, name, home, cwd);
        self.sparse_path_input = input;
    }

    pub fn profile_next(&mut self, now: u64)
        requires
            old(self).wf(),
        ensures
            final(self).wf(),
            old(self).profile_repos@.len() == 0 ==> *final(self) == *old(self),
            old(self).profile_repos@.len() > 0 ==> *final(self) == (App {
                profile_repos_selected: wrap_next(
                    old(self).profile_repos_selected as int,
                    old(self).profile_repos@.len() as int,
                ) as usize,
                readme_content: None,
                readme_scroll: 0,
                readme_pending: Some(now),
                ..*old(self)
            }),
    {
        if self.profile_repos.len() == 0 {
            return;
        }
        self.profile_repos_selected = step_down(self.profile_repos_selected, self.profile_repos.len());
        self.readme_content = None;
        self.readme_scroll = 0;
        self.readme_pending = Some(now);
    }

    pub fn profile_prev(&mut self, now: u64)
        requires
            old(self).wf(),
        ensures
            final(self).wf(),
            old(self).profile_repos@.len() == 0 ==> *final(self) == *old(self),
            old(self).profile_repos@.len() > 0 ==> *final(self) == (App {
                profile_repos_selected: wrap_prev(
                    old(self).profile_repos_selected as int,
                    old(self).profile_repos@.len() as int,
                ) as usize,
                readme_content: None,
                readme_scroll: 0,
                readme_pending: Some(now),
                ..*old(self)
            }),
    {
        if self.profile_repos.len() == 0 {
            return;
        }
        self.profile_repos_selected = step_up(self.profile_repos_selected, self.profile_repos.len());
        self.readme_content = None;
        self.readme_scroll = 0;
        self.readme_pending = Some(now);
    }

    pub fn selected_profile_repo(&self) -> (r: Option<&Repo>)
        ensures
            match r {
                Some(x) => opt_at(self.profile_repos@, self.profile_repos_selected as int) == Some(
                    *x,
                ),
                None => opt_at(self.profile_repos@, self.profile_repos_selected as int) is None,
            },
    {
        get_at(&self.profile_repos, self.profile_repos_selected)
    }

    pub fn my_repos_next(&mut self, now: u64)
        requires
            old(self).wf(),
        ensures
            final(self).wf(),
            old(self).my_repos@.len() == 0 ==> *final(self) == *old(self),
            old(self).my_repos@.len() > 0 ==> *final(self) == (App {
                my_repos_selected: wrap_next(
                    old(self).my_repos_selected as int,
                    old(self).my_repos@.len() as int,
                ) as usize,
                readme_content: None,
                readme_scroll: 0,
                readme_pending: Some(now),
                ..*old(self)
            }),
    {
        if self.my_repos.len() == 0 {
            return;
        }
        self.my_repos_selected = step_down(self.my_repos_selected, self.my_repos.len());
        self.readme_content = None;
        self.readme_scroll = 0;
        self.readme_pending = Some(now);
    }

    pub fn my_repos_prev(&mut self, now: u64)
        requires
            old(self).wf(),
        ensures
            final(self).wf(),
            old(self).my_repos@.len() == 0 ==> *final(self) == *old(self),
            old(self).my_repos@.len() > 0 ==> *final(self) == (App {
                my_repos_selected: wrap_prev(
                    old(self).my_repos_selected as int,
                    old(self).my_repos@.len() as int,
                ) as usize,
                readme_content: None,
                readme_scroll: 0,
                readme_pending: Some(now),
                ..*old(self)
            }),
    {
        if self.my_repos.len() == 0 {
            return;
        }
        self.my_repos_selected = step_up(self.my_repos_selected, self.my_repos.len());
        self.readme_content = None;
        self.readme_scroll = 0;
        self.readme_pending = Some(now);
    }

    pub fn selected_my_repo(&self) -> (r: Option<&Repo>)
        ensures
            match r {
                Some(x) => opt_at(self.my_repos@, self.my_repos_selected as int) == Some(*x),
                None => opt_at(self.my_repos@, self.my_repos_selected as int) is None,
            },
    {
        get_at(&self.my_repos, self.my_repos_selected)
    }

    pub fn current_language(&self) -> (r: Option<&'static str>)
        requires
            self.language_idx < LANGUAGE_COUNT,
        ensures
            match r {
                Some(s) => language_name(self.language_idx as int) == Some(s@),
                None => language_name(self.language_idx as int) is None,
            },
    {
        language_at(self.language_idx)
    }

    /// Moves to the next language of the cycle and filters by it.
    pub fn cycle_language(&mut self)
        requires
            old(self).wf(),
        ensures
            final(self).wf(),
            final(self).language_idx == (old(self).language_idx + 1) % (LANGUAGE_COUNT as int),
            match final(self).language_filter {
                Some(s) => language_name(final(self).language_idx as int) == Some(s@),
                None => language_name(final(self).language_idx as int) is None,
            },
            *final(self) == (App {
                language_idx: final(self).language_idx,
                language_filter: final(self).language_filter,
                ..*old(self)
            }),
    {
        self.language_idx = (self.language_idx + 1) % LANGUAGE_COUNT;
        self.language_filter = match language_at(self.language_idx) {
            Some(s) => Some(String::from_str(s)),
            None => None,
        };
    }

    pub fn next(&mut self, now: u64)
        requires
            old(self).wf(),
        ensures
            final(self).wf(),
            old(self).results@.len() == 0 ==> *final(self) == *old(self),
            old(self).results@.len() > 0 ==> *final(self) == (App {
                selected: wrap_next(old(self).selected as int, old(self).results@.len() as int)
                    as usize,
                readme_content: None,
                readme_scroll: 0,
                readme_pending: Some(now),
                ..*old(self)
            }),
    {
        if self.results.len() == 0 {
            return;
        }
        self.selected = step_down(self.selected, self.results.len());
        self.readme_content = None;
        self.readme_scroll = 0;
        self.readme_pending = Some(now);
    }

    pub fn prev(&mut self, now: u64)
        requires
            old(self).wf(),
        ensures
            final(self).wf(),
            old(self).results@.len() == 0 ==> *final(self) == *old(self),
            old(self).results@.len() > 0 ==> *final(self) == (App {
                selected: wrap_prev(old(self).selected as int, old(self).results@.len() as int)
                    as usize,
                readme_content: None,
                readme_scroll: 0,
                readme_pending: Some(now),
                ..*old(self)
            }),
    {
        if self.results.len() == 0 {
            return;
        }
        self.selected = step_up(self.selected, self.results.len());
        self.readme_content = None;
        self.readme_scroll = 0;
        self.readme_pending = Some(now);
    }

    /// Whether the pending README fetch is due (`README_DEBOUNCE_MS` after
    /// the last move); a due fetch stops being pending.
    pub fn take_readme_pending(&mut self, now: u64) -> (r: bool)
        ensures
            r == (old(self).readme_pending matches Some(t) && now >= t && now - t
                >= README_DEBOUNCE_MS),
            r ==> *final(self) == (App { readme_pending: None, ..*old(self) }),
            !r ==> *final(self) == *old(self),
    {
        match self.readme_pending {
            Some(t) => {
                if now >= t && now - t >= README_DEBOUNCE_MS {
                    self.readme_pending = None;
                    return true;
                }
            },
            None => {},
        }
        false
    }

    pub fn selected_repo(&self) -> (r: Option<&Repo>)
        ensures
            match r {
                Some(x) => opt_at(self.results@, self.selected as int) == Some(*x),
                None => opt_at(self.results@, self.selected as int) is None,
            },
    {
        get_at(&self.results, self.selected)
    }

    /// Returns the active repo regardless of which tab/state is active.
    pub fn active_repo(&self) -> (r: Option<&Repo>)
        ensures
            match r {
                Some(x) => self.active() == Some(*x),
                None => self.active() is None,
            },
    {
        let from_profile = matches!(self.state, AppState::ViewingProfile) || matches!(&self.prev_state, Some(AppState::ViewingProfile));
        if from_profile {
            return get_at(&self.profile_repos, self.profile_repos_selected);
        }
        match self.tab {
            Tab::MyRepos => get_at(&self.my_repos, self.my_repos_selected),
            Tab::Search => get_at(&self.results, self.selected),
        }
    }

    /// Takes the search history (the most recent query first), with no
    /// entry recalled.
    pub fn set_history(&mut self, history: Vec<String>)
        ensures
            *final(self) == (App { history, history_pos: None, ..*old(self) }),
    {
        self.history = history;
        self.history_pos = None;
    }

    /// Shows an error and stops the loading indicator.
    pub fn set_error(&mut self, msg: String)
        ensures
            *final(self) == (App { state: AppState::Error(msg), loading: false, ..*old(self) }),
    {
        self.state = AppState::Error(msg);
        self.loading = false;
    }

    /// Shows a status message from now on.
    pub fn set_status(&mut self, msg: String, now: u64)
        ensures
            *final(self) == (App { status_msg: Some(msg), status_set_at: Some(now), ..*old(self) }),
    {
        self.status_msg = Some(msg);
        self.status_set_at = Some(now);
    }

    pub fn clear_status(&mut self)
        ensures
            *final(self) == (App { status_msg: None, status_set_at: None, ..*old(self) }),
    {
        self.status_msg = None;
        self.status_set_at = None;
    }

    /// Clears the status message once it has been up for `STATUS_TTL_MS`.
    pub fn tick_status(&mut self, now: u64)
        ensures
            (old(self).status_set_at matches Some(t) && now >= t && now - t >= STATUS_TTL_MS)
                ==> *final(self) == (App { status_msg: None, status_set_at: None, ..*old(self) }),
            !(old(self).status_set_at matches Some(t) && now >= t && now - t >= STATUS_TTL_MS)
                ==> *final(self) == *old(self),
    {
        match self.status_set_at {
            Some(t) => {
                if now >= t && now - t >= STATUS_TTL_MS {
                    self.clear_status();
                }
            },
            None => {},
        }
    }

    pub fn file_next(&mut self)
        requires
            old(self).wf(),
        ensures
            final(self).wf(),
            old(self).file_entries@.len() == 0 ==> *final(self) == *old(self),
            old(self).file_entries@.len() > 0 ==> *final(self) == (App {
                file_selected: wrap_next(
                    old(self).file_selected as int,
                    old(self).file_entries@.len() as int,
                ) as usize,
                file_content: None,
                file_scroll: 0,
                ..*old(self)
            }),
    {
        if self.file_entries.len() == 0 {
            return;
        }
        self.file_selected = step_down(self.file_selected, self.file_entries.len());
        self.file_content = None;
        self.file_scroll = 0;
    }

    pub fn file_prev(&mut self)
        requires
            old(self).wf(),
        ensures
            final(self).wf(),
            old(self).file_entries@.len() == 0 ==> *final(self) == *old(self),
            old(self).file_entries@.len() > 0 ==> *final(self) == (App {
                file_selected: wrap_prev(
                    old(self).file_selected as int,
                    old(self).file_entries@.len() as int,
                ) as usize,
                file_content: None,
                file_scroll: 0,
                ..*old(self)
            }),
    {
        if self.file_entries.len() == 0 {
            return;
        }
        self.file_selected = step_up(self.file_selected, self.file_entries.len());
        self.file_content = None;
        self.file_scroll = 0;
    }

    pub fn selected_entry(&self) -> (r: Option<&FileEntry>)
        ensures
            match r {
                Some(x) => opt_at(self.file_entries@, self.file_selected as int) == Some(*x),
                None => opt_at(self.file_entries@, self.file_selected as int) is None,
            },
    {
        get_at(&self.file_entries, self.file_selected)
    }

    /// The directory the file browser shows; the root is the empty path.
    pub fn current_file_path(&self) -> (r: &str)
        ensures
            self.file_path_stack@.len() == 0 ==> r@ == Seq::<char>::empty(),
            self.file_path_stack@.len() > 0 ==> r@ == self.file_path_stack@.last()@,
    {
        let n = self.file_path_stack.len();
        if n == 0 {
            proof {
                reveal_strlit("");
            }
            ""
        } else {
            self.file_path_stack[n - 1].as_str()
        }
    }

    /// Whether `full_name` is among the starred repositories.
    pub fn is_starred(&self, full_name: &String) -> (r: bool)
        ensures
            r == starred_has(self.starred@, full_name@),
    {
        let mut i: usize = 0;
        while i < self.starred.len()
            invariant
                i <= self.starred.len(),
                forall|j: int| 0 <= j < i ==> self.starred@[j]@ != full_name@,
            decreases self.starred.len() - i,
        {
            if self.starred[i] == *full_name {
                proof {
                    assert(views(self.starred@)[i as int] == full_name@);
                }
                return true;
            }
            i = i + 1;
        }
        proof {
            if views(self.starred@).contains(full_name@) {
                let j = choose|j: int|
                    0 <= j < views(self.starred@).len() && views(self.starred@)[j] == full_name@;
                assert(self.starred@[j]@ == full_name@);
            }
        }
        false
    }

    /// Adds `full_name` to the starred repositories (a set: no duplicates are added).
    pub fn add_starred(&mut self, full_name: String)
        ensures
            views(final(self).starred@).to_set() == views(old(self).starred@).to_set().insert(
                full_name@,
            ),
            *final(self) == (App { starred: final(self).starred, ..*old(self) }),
    {
        if self.is_starred(&full_name) {
            proof {
                assert(views(self.starred@).to_set() =~= views(self.starred@).to_set().insert(
                    full_name@,
                ));
            }
            return;
        }
        let ghost before = self.starred@;
        self.starred.push(full_name);
        proof {
            assert(views(self.starred@) =~= views(before).push(full_name@));
            views(before).lemma_push_to_set_commute(full_name@);
        }
    }

    /// Removes `full_name` from the starred repositories.
    pub fn remove_starred(&mut self, full_name: &String)
        ensures
            views(final(self).starred@).to_set() == views(old(self).starred@).to_set().remove(
                full_name@,
            ),
            *final(self) == (App { starred: final(self).starred, ..*old(self) }),
    {
        let ghost old_views = views(self.starred@);
        let mut kept: Vec<String> = Vec::new();
        let mut i: usize = 0;
        proof {
            assert(views(kept@).to_set() =~= views(self.starred@.take(0)).to_set().remove(
                full_name@,
            ));
        }
        while i < self.starred.len()
            invariant
                i <= self.starred.len(),
                old_views == views(self.starred@),
                views(kept@).to_set() == views(self.starred@.take(i as int)).to_set().remove(
                    full_name@,
                ),
            decreases self.starred.len() - i,
        {
            let ghost before = kept@;
            let ghost tk = self.starred@.take(i as int);
            proof {
                assert(views(self.starred@.take(i + 1)) =~= views(tk).push(self.starred@[i as int]@));
                views(tk).lemma_push_to_set_commute(self.starred@[i as int]@);
            }
            if !(self.starred[i] == *full_name) {
                kept.push(self.starred[i].clone());
                proof {
                    assert(views(kept@) =~= views(before).push(self.starred@[i as int]@));
                    views(before).lemma_push_to_set_commute(self.starred@[i as int]@);
                    assert(views(kept@).to_set() =~= views(self.starred@.take(i + 1)).to_set().remove(
                        full_name@,
                    ));
                }
            } else {
                proof {
                    assert(views(kept@).to_set() =~= views(self.starred@.take(i + 1)).to_set().remove(
                        full_name@,
                    ));
                }
            }
            i = i + 1;
        }
        proof {
            assert(self.starred@.take(self.starred.len() as int) =~= self.starred@);
        }
        self.starred = kept;
    }
}

/// The input after pre-filling it with the configured default clone path:
/// that path, trimmed and expanded, with the cursor at its end; empty when
/// no default is configured.
/// The name of the active repository of `a`, if there is one.
pub open spec fn active_name(a: App) -> Option<Seq<char>> {
    match a.active() {
        Some(r) => Some(r.name@),
        None => None,
    }
}

/// The destination a clone prompt starts with: the configured default clone
/// path, expanded, with the repository's name under it (the prefix alone
/// when no repository is named or the prefix is empty); nothing without a
/// default.
pub open spec fn default_destination(
    config: Config,
    name: Option<Seq<char>>,
    home: Seq<char>,
    cwd: Seq<char>,
) -> Seq<char> {
    match config.default_clone_path {
        Some(d) => {
            let base = expanded_path(trimmed(d@), home, cwd);
            match name {
                Some(n) => if base.len() > 0 {
                    joined(base, n)
                } else {
                    base
                },
                None => base,
            }
        },
        None => Seq::empty(),
    }
}

/// `input` holds the default destination, with the cursor at its end.
pub open spec fn prefilled(
    input: TextInput,
    config: Config,
    name: Option<Seq<char>>,
    home: Seq<char>,
    cwd: Seq<char>,
) -> bool {
    &&& input.wf()
    &&& input.pos() == input.value@.len()
    &&& input.value@ == default_destination(config, name, home, cwd)
}

/// `name` put under `base`, with one `/` between them unless `base` ends in one.
fn join_name(base: String, name: &str) -> (r: String)
    ensures
        r@ == joined(base@, name@),
{
    let mut r = base;
    let n = r.as_str().unicode_len();
    if n > 0 && r.as_str().get_char(n - 1) != '/' {
        crate::path::string_push(&mut r, '/');
    }
    r.append(name);
    proof {
        assert(r@ =~= joined(base@, name@));
    }
    r
}

fn fill_default_path(
    input: &mut TextInput,
    config: &Config,
    name: Option<&str>,
    home: &str,
    cwd: &str,
)
    requires
        old(input).value@.len() == 0,
        old(input).cursor == 0,
    ensures
        prefilled(
            *final(input),
            *config,
            match name {
                Some(n) => Some(n@),
                None => None,
            },
            home@,
            cwd@,
        ),
{
    proof {
        crate::text::lemma_byte_offset_ends(input.value@);
        crate::text::lemma_char_pos(input.value@, 0);
    }
    match &config.default_clone_path {
        Some(default) => {
            let t = trim(default.as_str());
            let base = expand_path(t.as_str(), home, cwd);
            let dest = match name {
                Some(n) => if base.as_str().unicode_len() > 0 {
                    join_name(base, n)
                } else {
                    base
                },
                None => base,
            };
            let k = crate::input::string_len(&dest);
            input.value = dest;
            input.cursor = k;
            proof {
                crate::text::lemma_byte_offset_ends(input.value@);
                crate::text::lemma_char_pos(input.value@, input.value@.len() as int);
            }
        },
        None => {
            proof {
                assert(input.value@ =~= Seq::<char>::empty());
            }
        },
    }
}

// ───────────────────────── laws ─────────────────────────

/// In a list that is not empty, moving down and then up comes back to the
/// same entry, and so does moving up and then down (both wrap around).
pub proof fn law_wrap_inverse(sel: int, len: int)
    requires
        0 <= sel < len,
    ensures
        0 <= wrap_next(sel, len) < len,
        0 <= wrap_prev(sel, len) < len,
        wrap_prev(wrap_next(sel, len), len) == sel,
        wrap_next(wrap_prev(sel, len), len) == sel,
{
    vstd::arithmetic::div_mod::lemma_mod_self_0(len);
    if sel + 1 < len {
        vstd::arithmetic::div_mod::lemma_small_mod((sel + 1) as nat, len as nat);
        assert(wrap_next(sel, len) == sel + 1);
    } else {
        assert(wrap_next(sel, len) == 0);
    }
    if sel > 0 {
        vstd::arithmetic::div_mod::lemma_small_mod(sel as nat, len as nat);
        assert(wrap_next(sel - 1, len) == sel);
    } else {
        assert(wrap_prev(sel, len) == len - 1);
        assert(wrap_next(len - 1, len) == 0);
    }
}

/// Starring a repository makes `is_starred` hold for it and unstarring
/// makes it fail; whether any other repository is starred stays as it was.
pub proof fn law_star_state(
    before: Seq<String>,
    after: Seq<String>,
    name: Seq<char>,
    other: Seq<char>,
    starring: bool,
)
    requires
        views(after).to_set() == (if starring {
            views(before).to_set().insert(name)
        } else {
            views(before).to_set().remove(name)
        }),
        other != name,
    ensures
        starred_has(after, name) == starring,
        starred_has(after, other) == starred_has(before, other),
{
    assert(views(after).to_set().contains(name) == views(after).contains(name));
    assert(views(after).to_set().contains(other) == views(after).contains(other));
    assert(views(before).to_set().contains(other) == views(before).contains(other));
}

/// The language filter position after `n` presses of Tab from position `i`.
pub open spec fn cycled(i: int, n: nat) -> int
    decreases n,
{
    if n == 0 {
        i
    } else {
        (cycled(i, (n - 1) as nat) + 1) % (LANGUAGE_COUNT as int)
    }
}

/// The language filter goes through every setting: after `LANGUAGE_COUNT`
/// presses of Tab it is back where it started, and no fewer presses bring
/// it back.
pub proof fn law_language_cycle(i: int)
    requires
        0 <= i < LANGUAGE_COUNT,
    ensures
        cycled(i, LANGUAGE_COUNT as nat) == i,
        forall|n: nat| 0 < n < LANGUAGE_COUNT ==> #[trigger] cycled(i, n) != i,
{
    assert forall|n: nat| n <= LANGUAGE_COUNT implies #[trigger] cycled(i, n) == (i + n) % (
    LANGUAGE_COUNT as int) by {
        lemma_cycled(i, n);
    }
    assert(cycled(i, LANGUAGE_COUNT as nat) == (i + LANGUAGE_COUNT) % (LANGUAGE_COUNT as int));
}

proof fn lemma_cycled(i: int, n: nat)
    requires
        0 <= i < LANGUAGE_COUNT,
    ensures
        cycled(i, n) == (i + n) % (LANGUAGE_COUNT as int),
    decreases n,
{
    if n > 0 {
        lemma_cycled(i, (n - 1) as nat);
    }
}

/// The language filter cycle names each language once: its positions hold
/// pairwise different settings, and only position 0 means any language.
pub proof fn law_language_names_distinct(i: int, j: int)
    requires
        0 <= i < LANGUAGE_COUNT,
        0 <= j < LANGUAGE_COUNT,
        i != j,
    ensures
        language_name(i) != language_name(j),
        language_name(i) is None <==> i == 0,
{
    reveal_strlit("Rust");
    reveal_strlit("Python");
    reveal_strlit("Go");
    reveal_strlit("TypeScript");
    reveal_strlit("JavaScript");
    reveal_strlit("C");
    reveal_strlit("C++");
    reveal_strlit("Java");
    reveal_strlit("Zig");
    reveal_strlit("Nix");
    reveal_strlit("Shell");
    if i != 0 && j != 0 {
        let a = language_name(i)->0;
        let b = language_name(j)->0;
        assert(a.len() != b.len() || a[0] != b[0]);
    }
}

} // verus!

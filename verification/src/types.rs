//! Plain data shared by the application: repositories, files, issues,
//! notifications, and the states the interface can be in.
use vstd::prelude::*;

verus! {

#[derive(Debug)]
pub struct Repo {
    pub id: u64,
    pub full_name: String,
    pub name: String,
    pub owner: String,
    pub description: Option<String>,
    pub language: Option<String>,
    pub stargazers_count: u64,
    pub forks_count: u64,
    pub html_url: String,
    pub clone_url: String,
    pub default_branch: String,
    pub archived: bool,
    pub fork: bool,
}

impl Clone for Repo {
    fn clone(&self) -> (r: Self)
        ensures
            r == *self,
    {
        Repo {
            id: self.id,
            full_name: self.full_name.clone(),
            name: self.name.clone(),
            owner: self.owner.clone(),
            description: clone_opt_string(&self.description),
            language: clone_opt_string(&self.language),
            stargazers_count: self.stargazers_count,
            forks_count: self.forks_count,
            html_url: self.html_url.clone(),
            clone_url: self.clone_url.clone(),
            default_branch: self.default_branch.clone(),
            archived: self.archived,
            fork: self.fork,
        }
    }
}

/// A copy of an optional string.
pub fn clone_opt_string(s: &Option<String>) -> (r: Option<String>)
    ensures
        r == *s,
{
    match s {
        Some(x) => Some(x.clone()),
        None => None,
    }
}

#[derive(Debug, Clone, Copy, PartialEq, Eq, Structural)]
pub enum Tab {
    Search,
    MyRepos,
}

#[derive(Debug)]
pub enum AppState {
    Searching,
    Browsing,
    Previewing,
    FileBrowsing,
    Cloning,
    SparseCloning,
    FileSaving,
    MyRepos,
    Renaming,
    ConfirmDelete,
    ViewingProfile,
    /// Browsing the issues/PRs list of a repo.
    ViewingIssues,
    /// Reading a single issue and its comments.
    ViewingIssue,
    /// Composing a new issue.
    CreatingIssue,
    ViewingNotifications,
    /// Typing a code search query within a repo.
    SearchingCode,
    /// Browsing code search results.
    ViewingCodeResults,
    /// The new repo overlay.
    CreatingRepo,
    Error(String),
    Help,
}

impl Clone for AppState {
    fn clone(&self) -> (r: Self)
        ensures
            r == *self,
    {
        match self {
            AppState::Searching => AppState::Searching,
            AppState::Browsing => AppState::Browsing,
            AppState::Previewing => AppState::Previewing,
            AppState::FileBrowsing => AppState::FileBrowsing,
            AppState::Cloning => AppState::Cloning,
            AppState::SparseCloning => AppState::SparseCloning,
            AppState::FileSaving => AppState::FileSaving,
            AppState::MyRepos => AppState::MyRepos,
            AppState::Renaming => AppState::Renaming,
            AppState::ConfirmDelete => AppState::ConfirmDelete,
            AppState::ViewingProfile => AppState::ViewingProfile,
            AppState::ViewingIssues => AppState::ViewingIssues,
            AppState::ViewingIssue => AppState::ViewingIssue,
            AppState::CreatingIssue => AppState::CreatingIssue,
            AppState::ViewingNotifications => AppState::ViewingNotifications,
            AppState::SearchingCode => AppState::SearchingCode,
            AppState::ViewingCodeResults => AppState::ViewingCodeResults,
            AppState::CreatingRepo => AppState::CreatingRepo,
            AppState::Error(m) => AppState::Error(m.clone()),
            AppState::Help => AppState::Help,
        }
    }
}

#[derive(Debug, Clone, Copy, PartialEq, Eq, Structural)]
pub enum SparseStep {
    Path,
    Dirs,
}

#[derive(Debug, Clone, Copy, PartialEq, Eq, Structural)]
pub enum EntryType {
    File,
    Dir,
}

#[derive(Debug)]
pub struct FileEntry {
    pub name: String,
    pub path: String,
    pub entry_type: EntryType,
}

impl Clone for FileEntry {
    fn clone(&self) -> (r: Self)
        ensures
            r == *self,
    {
        FileEntry { name: self.name.clone(), path: self.path.clone(), entry_type: self.entry_type }
    }
}

#[derive(Debug)]
pub struct SearchResult {
    pub repos: Vec<Repo>,
    pub total_count: u64,
}

#[derive(Debug)]
pub struct UserProfile {
    pub login: String,
    pub name: Option<String>,
    pub bio: Option<String>,
    pub followers: u64,
    pub following: u64,
    pub public_repos: u64,
    pub html_url: String,
}

#[derive(Debug, Clone, Copy)]
pub struct RateLimit {
    pub search_remaining: u32,
    pub search_limit: u32,
    pub core_remaining: u32,
    pub core_limit: u32,
}

#[derive(Debug)]
pub struct Issue {
    pub number: u64,
    pub title: String,
    /// "open" or "closed".
    pub state: String,
    pub user_login: String,
    pub body: Option<String>,
    pub comments: u64,
    pub created_at: String,
    pub html_url: String,
    /// Whether this is a pull request.
    pub pull_request: bool,
    pub labels: Vec<String>,
}

/// A copy of a list of strings.
pub fn clone_strings(v: &Vec<String>) -> (r: Vec<String>)
    ensures
        r@ == v@,
{
    let mut r: Vec<String> = Vec::new();
    let mut i: usize = 0;
    while i < v.len()
        invariant
            i <= v.len(),
            r@ == v@.take(i as int),
        decreases v.len() - i,
    {
        r.push(v[i].clone());
        proof {
            assert(v@.take(i + 1) =~= v@.take(i as int).push(v@[i as int]));
        }
        i = i + 1;
    }
    proof {
        assert(v@.take(v.len() as int) =~= v@);
    }
    r
}

impl Clone for Issue {
    fn clone(&self) -> (r: Self)
        ensures
            r.labels@ == self.labels@,
            r == (Issue { labels: r.labels, ..*self }),
    {
        Issue {
            number: self.number,
            title: self.title.clone(),
            state: self.state.clone(),
            user_login: self.user_login.clone(),
            body: clone_opt_string(&self.body),
            comments: self.comments,
            created_at: self.created_at.clone(),
            html_url: self.html_url.clone(),
            pull_request: self.pull_request,
            labels: clone_strings(&self.labels),
        }
    }
}

#[derive(Debug)]
pub struct IssueComment {
    pub id: u64,
    pub user_login: String,
    pub body: String,
    pub created_at: String,
}

#[derive(Debug)]
pub struct Notification {
    pub id: String,
    pub repo_full_name: String,
    pub subject_title: String,
    /// "Issue", "PullRequest", "Release", and so on.
    pub subject_type: String,
    /// "mention", "subscribed", "review_requested", and so on.
    pub reason: String,
    pub unread: bool,
    pub updated_at: String,
    pub subject_url: Option<String>,
}

#[derive(Debug)]
pub struct CodeResult {
    pub path: String,
    pub repo_full_name: String,
    pub html_url: String,
    pub sha: String,
}

#[derive(Debug, Clone, Copy, PartialEq, Eq, Structural)]
pub enum IssueFilter {
    Open,
    Closed,
    All,
}

/// The query value of each filter.
pub open spec fn filter_query(f: IssueFilter) -> Seq<char> {
    match f {
        IssueFilter::Open => "open"@,
        IssueFilter::Closed => "closed"@,
        IssueFilter::All => "all"@,
    }
}

/// The label shown for each filter.
pub open spec fn filter_label(f: IssueFilter) -> Seq<char> {
    match f {
        IssueFilter::Open => "Open"@,
        IssueFilter::Closed => "Closed"@,
        IssueFilter::All => "All"@,
    }
}

/// The filter that follows `f` in the cycle open, closed, all.
pub open spec fn filter_after(f: IssueFilter) -> IssueFilter {
    match f {
        IssueFilter::Open => IssueFilter::Closed,
        IssueFilter::Closed => IssueFilter::All,
        IssueFilter::All => IssueFilter::Open,
    }
}

impl IssueFilter {
    pub fn as_str(&self) -> (r: &'static str)
        ensures
            r@ == filter_query(*self),
    {
        match self {
            IssueFilter::Open => "open",
            IssueFilter::Closed => "closed",
            IssueFilter::All => "all",
        }
    }

    pub fn label(&self) -> (r: &'static str)
        ensures
            r@ == filter_label(*self),
    {
        match self {
            IssueFilter::Open => "Open",
            IssueFilter::Closed => "Closed",
            IssueFilter::All => "All",
        }
    }

    pub fn next(&self) -> (r: Self)
        ensures
            r == filter_after(*self),
    {
        match self {
            IssueFilter::Open => IssueFilter::Closed,
            IssueFilter::Closed => IssueFilter::All,
            IssueFilter::All => IssueFilter::Open,
        }
    }
}

/// Cycling the filter three times comes back to where it started, and the
/// two cycles before that visit the other two filters.
pub proof fn law_filter_cycle(f: IssueFilter)
    ensures
        filter_after(filter_after(filter_after(f))) == f,
        filter_after(f) != f,
        filter_after(filter_after(f)) != f,
{
}

#[derive(Debug, Clone, Copy, PartialEq, Eq, Structural)]
pub enum IssueTab {
    Issues,
    PullRequests,
}

} // verus!

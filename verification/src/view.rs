//! What the screen shows, as text: the status bar with its key hints and
//! rate limits, the tab bar, titles and placeholders of the panes, the rows
//! of the lists, the issue and profile texts, and which panes and overlay
//! the current state draws. Drawing them is left to the caller.
use vstd::prelude::*;
use crate::app::{get_at, language_name, opt_at, App};
use crate::path::{split_lines, str_lines};
use crate::input::TextInput;
use crate::events::{decimal, u64_to_decimal};
use crate::config::eq_str;
use crate::markdown::{
    colored, lines_view, plain, span, spans_view, MdColor, MdSpan, MdStyle, SpanView,
};
use crate::input::{char_width, str_is_boundary};
use crate::path::string_push;
use crate::text::{
    byte_offset, char_pos, is_boundary, lemma_byte_offset_ends, lemma_byte_offset_le,
    lemma_byte_offset_mono, lemma_byte_offset_step,
};
use crate::types::{
    filter_label, AppState, EntryType, FileEntry, Issue, IssueComment, IssueTab, Notification,
    RateLimit, Repo,
    SparseStep, Tab,
};

verus! {

// ───────────────────────── styles ─────────────────────────

/// Bold in colour `c`.
pub open spec fn strong(c: MdColor) -> MdStyle {
    MdStyle { bold: true, ..colored(c) }
}

fn plain_style() -> (r: MdStyle)
    ensures
        r == plain(),
{
    MdStyle { fg: None, bold: false, italic: false, crossed_out: false, underlined: false }
}

fn colored_style(c: MdColor) -> (r: MdStyle)
    ensures
        r == colored(c),
{
    MdStyle { fg: Some(c), bold: false, italic: false, crossed_out: false, underlined: false }
}

fn strong_style(c: MdColor) -> (r: MdStyle)
    ensures
        r == strong(c),
{
    MdStyle { fg: Some(c), bold: true, italic: false, crossed_out: false, underlined: false }
}

/// Adds a span to a line.
fn push_span(line: &mut Vec<MdSpan>, text: String, style: MdStyle)
    ensures
        spans_view(final(line)@) == spans_view(old(line)@).push(span(text@, style)),
{
    let ghost before = line@;
    let s = MdSpan { text, style };
    line.push(s);
    proof {
        assert(spans_view(before.push(s)) =~= spans_view(before).push(span(text@, style)));
    }
}

// ───────────────────────── status bar ─────────────────────────

pub open spec fn pair_views(v: Seq<(&str, &str)>) -> Seq<(Seq<char>, Seq<char>)> {
    v.map_values(|p: (&str, &str)| (p.0@, p.1@))
}

/// The key hints that the status bar shows in `state`: key, then action.
pub open spec fn hint_pairs(state: AppState) -> Seq<(Seq<char>, Seq<char>)> {
    match state {
        AppState::Searching => seq![
            ("Enter"@, "search"@),
            ("Tab"@, "language filter"@),
            ("Esc"@, "cancel"@),
        ],
        AppState::Browsing => seq![
            ("/"@, "search"@),
            ("Tab"@, "language"@),
            ("j/k"@, "nav"@),
            ("J/K"@, "scroll readme"@),
            ("l"@, "browse files"@),
            ("i"@, "issues/PRs"@),
            ("S"@, "code search"@),
            ("u"@, "view profile"@),
            ("s"@, "star/unstar"@),
            ("f"@, "fork"@),
            ("c"@, "clone"@),
            ("C"@, "sparse clone"@),
            ("o"@, "browser"@),
            ("r"@, "refresh"@),
            ("3"@, "notifications"@),
            ("?"@, "help"@),
            ("q"@, "quit"@),
        ],
        AppState::FileBrowsing => seq![
            ("j/k"@, "nav"@),
            ("J/K"@, "scroll preview"@),
            ("l"@, "open"@),
            ("c"@, "save file"@),
            ("h"@, "up / back"@),
            ("Esc"@, "back to repos"@),
            ("q"@, "quit"@),
        ],
        AppState::MyRepos => seq![
            ("j/k"@, "nav"@),
            ("J/K"@, "scroll readme"@),
            ("l"@, "browse files"@),
            ("u"@, "view profile"@),
            ("c"@, "clone"@),
            ("R"@, "rename"@),
            ("D"@, "delete"@),
            ("A"@, "archive"@),
            ("o"@, "browser"@),
            ("?"@, "help"@),
            ("q"@, "quit"@),
        ],
        AppState::ViewingProfile => seq![
            ("j/k"@, "nav"@),
            ("J/K"@, "scroll readme"@),
            ("l"@, "browse files"@),
            ("u"@, "go to owner"@),
            ("c"@, "clone"@),
            ("o"@, "open profile"@),
            ("Esc/h"@, "back"@),
            ("?"@, "help"@),
            ("q"@, "quit"@),
        ],
        AppState::ViewingIssues => seq![
            ("j/k"@, "nav"@),
            ("l/Enter"@, "open issue"@),
            ("Tab"@, "issues/PRs"@),
            ("f"@, "filter open/closed/all"@),
            ("n"@, "new issue"@),
            ("x"@, "close issue"@),
            ("o"@, "browser"@),
            ("Esc/h"@, "back"@),
            ("q"@, "quit"@),
        ],
        AppState::ViewingIssue => seq![
            ("j/k/J/K"@, "scroll"@),
            ("Esc/h"@, "back to list"@),
            ("q"@, "quit"@),
        ],
        AppState::ViewingNotifications => seq![
            ("j/k"@, "nav"@),
            ("r"@, "mark read"@),
            ("R"@, "mark all read"@),
            ("f"@, "toggle unread filter"@),
            ("o"@, "browser"@),
            ("Esc/h"@, "back"@),
            ("q"@, "quit"@),
        ],
        AppState::CreatingIssue => seq![
            ("Tab"@, "switch title/body"@),
            ("Enter (title)"@, "go to body"@),
            ("Enter (body)"@, "submit"@),
            ("Esc"@, "cancel"@),
        ],
        AppState::SearchingCode => seq![
            ("Enter"@, "search"@),
            ("Esc"@, "back"@),
        ],
        AppState::ViewingCodeResults => seq![
            ("j/k"@, "nav"@),
            ("l/Enter"@, "load file"@),
            ("J/K"@, "scroll file"@),
            ("o"@, "browser"@),
            ("h/Esc"@, "back to search"@),
            ("q"@, "quit"@),
        ],
        AppState::CreatingRepo => seq![
            ("Tab"@, "next field"@),
            ("Space (private)"@, "toggle"@),
            ("Enter"@, "create"@),
            ("Esc"@, "cancel"@),
        ],
        AppState::Cloning | AppState::SparseCloning | AppState::FileSaving | AppState::Renaming => seq![
            ("Enter"@, "confirm"@),
            ("Esc"@, "cancel"@),
        ],
        AppState::ConfirmDelete => seq![
            ("y"@, "confirm delete"@),
            ("n / Esc"@, "cancel"@),
        ],
        AppState::Error(_) => seq![
            ("any key"@, "dismiss"@),
        ],
        AppState::Help => seq![
            ("any key"@, "close"@),
        ],
        _ => seq![
            ("q"@, "quit"@),
        ],
    }
}

fn hint_table(state: &AppState) -> (r: Vec<(&'static str, &'static str)>)
    ensures
        pair_views(r@) == hint_pairs(*state),
{
    let mut v: Vec<(&'static str, &'static str)> = Vec::new();
    match state {
        AppState::Searching => {
            v.push(("Enter", "search"));
            v.push(("Tab", "language filter"));
            v.push(("Esc", "cancel"));
            proof {
                assert(pair_views(v@) =~= hint_pairs(*state));
            }
        },
        AppState::Browsing => {
            v.push(("/", "search"));
            v.push(("Tab", "language"));
            v.push(("j/k", "nav"));
            v.push(("J/K", "scroll readme"));
            v.push(("l", "browse files"));
            v.push(("i", "issues/PRs"));
            v.push(("S", "code search"));
            v.push(("u", "view profile"));
            v.push(("s", "star/unstar"));
            v.push(("f", "fork"));
            v.push(("c", "clone"));
            v.push(("C", "sparse clone"));
            v.push(("o", "browser"));
            v.push(("r", "refresh"));
            v.push(("3", "notifications"));
            v.push(("?", "help"));
            v.push(("q", "quit"));
            proof {
                assert(pair_views(v@) =~= hint_pairs(*state));
            }
        },
        AppState::FileBrowsing => {
            v.push(("j/k", "nav"));
            v.push(("J/K", "scroll preview"));
            v.push(("l", "open"));
            v.push(("c", "save file"));
            v.push(("h", "up / back"));
            v.push(("Esc", "back to repos"));
            v.push(("q", "quit"));
            proof {
                assert(pair_views(v@) =~= hint_pairs(*state));
            }
        },
        AppState::MyRepos => {
            v.push(("j/k", "nav"));
            v.push(("J/K", "scroll readme"));
            v.push(("l", "browse files"));
            v.push(("u", "view profile"));
            v.push(("c", "clone"));
            v.push(("R", "rename"));
            v.push(("D", "delete"));
            v.push(("A", "archive"));
            v.push(("o", "browser"));
            v.push(("?", "help"));
            v.push(("q", "quit"));
            proof {
                assert(pair_views(v@) =~= hint_pairs(*state));
            }
        },
        AppState::ViewingProfile => {
            v.push(("j/k", "nav"));
            v.push(("J/K", "scroll readme"));
            v.push(("l", "browse files"));
            v.push(("u", "go to owner"));
            v.push(("c", "clone"));
            v.push(("o", "open profile"));
            v.push(("Esc/h", "back"));
            v.push(("?", "help"));
            v.push(("q", "quit"));
            proof {
                assert(pair_views(v@) =~= hint_pairs(*state));
            }
        },
        AppState::ViewingIssues => {
            v.push(("j/k", "nav"));
            v.push(("l/Enter", "open issue"));
            v.push(("Tab", "issues/PRs"));
            v.push(("f", "filter open/closed/all"));
            v.push(("n", "new issue"));
            v.push(("x", "close issue"));
            v.push(("o", "browser"));
            v.push(("Esc/h", "back"));
            v.push(("q", "quit"));
            proof {
                assert(pair_views(v@) =~= hint_pairs(*state));
            }
        },
        AppState::ViewingIssue => {
            v.push(("j/k/J/K", "scroll"));
            v.push(("Esc/h", "back to list"));
            v.push(("q", "quit"));
            proof {
                assert(pair_views(v@) =~= hint_pairs(*state));
            }
        },
        AppState::ViewingNotifications => {
            v.push(("j/k", "nav"));
            v.push(("r", "mark read"));
            v.push(("R", "mark all read"));
            v.push(("f", "toggle unread filter"));
            v.push(("o", "browser"));
            v.push(("Esc/h", "back"));
            v.push(("q", "quit"));
            proof {
                assert(pair_views(v@) =~= hint_pairs(*state));
            }
        },
        AppState::CreatingIssue => {
            v.push(("Tab", "switch title/body"));
            v.push(("Enter (title)", "go to body"));
            v.push(("Enter (body)", "submit"));
            v.push(("Esc", "cancel"));
            proof {
                assert(pair_views(v@) =~= hint_pairs(*state));
            }
        },
        AppState::SearchingCode => {
            v.push(("Enter", "search"));
            v.push(("Esc", "back"));
            proof {
                assert(pair_views(v@) =~= hint_pairs(*state));
            }
        },
        AppState::ViewingCodeResults => {
            v.push(("j/k", "nav"));
            v.push(("l/Enter", "load file"));
            v.push(("J/K", "scroll file"));
            v.push(("o", "browser"));
            v.push(("h/Esc", "back to search"));
            v.push(("q", "quit"));
            proof {
                assert(pair_views(v@) =~= hint_pairs(*state));
            }
        },
        AppState::CreatingRepo => {
            v.push(("Tab", "next field"));
            v.push(("Space (private)", "toggle"));
            v.push(("Enter", "create"));
            v.push(("Esc", "cancel"));
            proof {
                assert(pair_views(v@) =~= hint_pairs(*state));
            }
        },
        AppState::Cloning | AppState::SparseCloning | AppState::FileSaving | AppState::Renaming => {
            v.push(("Enter", "confirm"));
            v.push(("Esc", "cancel"));
            proof {
                assert(pair_views(v@) =~= hint_pairs(*state));
            }
        },
        AppState::ConfirmDelete => {
            v.push(("y", "confirm delete"));
            v.push(("n / Esc", "cancel"));
            proof {
                assert(pair_views(v@) =~= hint_pairs(*state));
            }
        },
        AppState::Error(_) => {
            v.push(("any key", "dismiss"));
            proof {
                assert(pair_views(v@) =~= hint_pairs(*state));
            }
        },
        AppState::Help => {
            v.push(("any key", "close"));
            proof {
                assert(pair_views(v@) =~= hint_pairs(*state));
            }
        },
        _ => {
            v.push(("q", "quit"));
            proof {
                assert(pair_views(v@) =~= hint_pairs(*state));
            }
        },
    }
    v
}


/// The key hints as a line: a space, then each key in bold white and its
/// action after a colon in dark grey, two spaces between hints.
pub open spec fn hint_spans(pairs: Seq<(Seq<char>, Seq<char>)>) -> Seq<SpanView>
    decreases pairs.len(),
{
    if pairs.len() == 0 {
        seq![span(" "@, plain())]
    } else {
        let prev = hint_spans(pairs.drop_last());
        let sep = if pairs.len() > 1 {
            prev.push(span("  "@, plain()))
        } else {
            prev
        };
        sep.push(span(pairs.last().0, strong(MdColor::White))).push(
            span(":"@ + pairs.last().1, colored(MdColor::DarkGray)),
        )
    }
}

/// The rate limits as the status bar shows them.
pub open spec fn rate_text(rl: RateLimit) -> Seq<char> {
    " search:"@ + decimal(rl.search_remaining as nat) + "/"@ + decimal(rl.search_limit as nat)
        + " core:"@ + decimal(rl.core_remaining as nat) + "/"@ + decimal(rl.core_limit as nat)
        + " "@
}

fn hint_line(pairs: &Vec<(&'static str, &'static str)>) -> (r: Vec<MdSpan>)
    ensures
        spans_view(r@) == hint_spans(pair_views(pairs@)),
{
    let ghost pv = pair_views(pairs@);
    let mut line: Vec<MdSpan> = Vec::new();
    push_span(&mut line, String::from_str(" "), plain_style());
    proof {
        assert(pv.take(0) =~= Seq::<(Seq<char>, Seq<char>)>::empty());
        assert(spans_view(line@) =~= hint_spans(pv.take(0)));
    }
    let mut i: usize = 0;
    while i < pairs.len()
        invariant
            i <= pairs.len(),
            pv == pair_views(pairs@),
            spans_view(line@) == hint_spans(pv.take(i as int)),
        decreases pairs.len() - i,
    {
        proof {
            assert(pv.take(i + 1).drop_last() =~= pv.take(i as int));
            assert(pv.take(i + 1).last() == pv[i as int]);
        }
        if i > 0 {
            push_span(&mut line, String::from_str("  "), plain_style());
        }
        let (k, a) = pairs[i];
        push_span(&mut line, String::from_str(k), strong_style(MdColor::White));
        let mut act = String::from_str(":");
        act.append(a);
        push_span(&mut line, act, colored_style(MdColor::DarkGray));
        i = i + 1;
    }
    proof {
        assert(pv.take(pairs.len() as int) =~= pv);
    }
    line
}

/// The rate limits as the status bar shows them.
pub fn rate_limit_text(rl: &RateLimit) -> (r: String)
    ensures
        r@ == rate_text(*rl),
{
    let mut s = String::from_str(" search:");
    s.append(u64_to_decimal(rl.search_remaining as u64).as_str());
    s.append("/");
    s.append(u64_to_decimal(rl.search_limit as u64).as_str());
    s.append(" core:");
    s.append(u64_to_decimal(rl.core_remaining as u64).as_str());
    s.append("/");
    s.append(u64_to_decimal(rl.core_limit as u64).as_str());
    s.append(" ");
    s
}

/// What the status bar shows.
pub struct StatusBar {
    /// The status message, in yellow, when one is up.
    pub message: Option<String>,
    /// The rate limits, on the right, when they are known.
    pub rate: Option<String>,
    /// The key hints of the current state, when no message is up.
    pub hints: Vec<MdSpan>,
}

/// The status bar: the status message if one is up, otherwise the key
/// hints of the current state; the rate limits on the right if known.
pub fn status_bar(app: &App) -> (r: StatusBar)
    ensures
        r.message == app.status_msg,
        match app.rate_limit {
            Some(rl) => r.rate matches Some(t) && t@ == rate_text(rl),
            None => r.rate is None,
        },
        app.status_msg is Some ==> r.hints@.len() == 0,
        app.status_msg is None ==> spans_view(r.hints@) == hint_spans(hint_pairs(app.state)),
{
    let rate = match &app.rate_limit {
        Some(rl) => Some(rate_limit_text(rl)),
        None => None,
    };
    match &app.status_msg {
        Some(m) => StatusBar { message: Some(m.clone()), rate, hints: Vec::new() },
        None => {
            let pairs = hint_table(&app.state);
            StatusBar { message: None, rate, hints: hint_line(&pairs) }
        },
    }
}

// ───────────────────────── text helpers ─────────────────────────

/// `s` padded with spaces to `w` characters, as `{:<w}` writes it.
pub open spec fn padded(s: Seq<char>, w: nat) -> Seq<char> {
    if s.len() >= w {
        s
    } else {
        s + Seq::new((w - s.len()) as nat, |i: int| ' ')
    }
}

/// The first `n` characters of `s` (all of it when it is shorter).
pub open spec fn first_chars(s: Seq<char>, n: nat) -> Seq<char> {
    if s.len() <= n {
        s
    } else {
        s.take(n as int)
    }
}

/// `s.get(..10)`: the characters before byte offset 10 when that offset is
/// a character boundary, otherwise nothing.
pub open spec fn date_part(s: Seq<char>) -> Seq<char> {
    if is_boundary(s, 10) {
        s.take(char_pos(s, 10))
    } else {
        Seq::empty()
    }
}

/// `s` padded with spaces to `w` characters.
pub fn pad_to(s: &str, w: usize) -> (r: String)
    ensures
        r@ == padded(s@, w as nat),
{
    let n = s.unicode_len();
    let mut r = String::from_str(s);
    if n < w {
        let mut i: usize = n;
        proof {
            assert(r@ =~= s@ + Seq::new((i - n) as nat, |j: int| ' '));
        }
        while i < w
            invariant
                n == s@.len(),
                n <= i <= w,
                r@ == s@ + Seq::new((i - n) as nat, |j: int| ' '),
            decreases w - i,
        {
            string_push(&mut r, ' ');
            proof {
                assert(r@ =~= s@ + Seq::new((i + 1 - n) as nat, |j: int| ' '));
            }
            i = i + 1;
        }
    }
    r
}

/// The first `n` characters of `s`.
pub fn take_chars(s: &str, n: usize) -> (r: String)
    ensures
        r@ == first_chars(s@, n as nat),
{
    let len = s.unicode_len();
    let mut r = String::new();
    let mut i: usize = 0;
    while i < len && i < n
        invariant
            len == s@.len(),
            i <= len,
            i <= n,
            r@ == s@.take(i as int),
        decreases len - i,
    {
        string_push(&mut r, s.get_char(i));
        proof {
            assert(s@.take(i + 1) =~= s@.take(i as int).push(s@[i as int]));
        }
        i = i + 1;
    }
    proof {
        if len <= n {
            assert(s@.take(len as int) =~= s@);
        }
    }
    r
}

/// `s.get(..10).unwrap_or("")`.
pub fn date_of(s: &str) -> (r: String)
    ensures
        r@ == date_part(s@),
{
    if !str_is_boundary(s, 10) {
        return String::new();
    }
    let len = s.unicode_len();
    let mut r = String::new();
    let mut i: usize = 0;
    let mut off: usize = 0;
    proof {
        lemma_byte_offset_ends(s@);
    }
    let ghost k = char_pos(s@, 10);
    proof {
        lemma_byte_offset_le(s@, 0, k);
    }
    while off < 10
        invariant
            len == s@.len(),
            0 <= k <= len,
            byte_offset(s@, k) == 10,
            i <= k,
            off == byte_offset(s@, i as int),
            r@ == s@.take(i as int),
        decreases k - i,
    {
        proof {
            assert(i < k);
        }
        let c = s.get_char(i);
        proof {
            lemma_byte_offset_step(s@, i as int);
            lemma_byte_offset_le(s@, i + 1, k);
        }
        off = off + char_width(c);
        string_push(&mut r, c);
        proof {
            assert(s@.take(i + 1) =~= s@.take(i as int).push(c));
        }
        i = i + 1;
    }
    proof {
        if i < k {
            lemma_byte_offset_mono(s@, i as int, k);
        }
    }
    r
}

/// `parts` joined with `sep` between them.
pub open spec fn joined_with(parts: Seq<Seq<char>>, sep: Seq<char>) -> Seq<char>
    decreases parts.len(),
{
    if parts.len() == 0 {
        Seq::empty()
    } else if parts.len() == 1 {
        parts[0]
    } else {
        joined_with(parts.drop_last(), sep) + sep + parts.last()
    }
}

/// `parts.join(sep)`.
pub fn join_strs(parts: &Vec<String>, sep: &str) -> (r: String)
    ensures
        r@ == joined_with(parts@.map_values(|x: String| x@), sep@),
{
    let ghost pv = parts@.map_values(|x: String| x@);
    let mut r = String::new();
    let mut i: usize = 0;
    proof {
        assert(pv.take(0) =~= Seq::<Seq<char>>::empty());
    }
    while i < parts.len()
        invariant
            i <= parts.len(),
            pv == parts@.map_values(|x: String| x@),
            r@ == joined_with(pv.take(i as int), sep@),
        decreases parts.len() - i,
    {
        proof {
            assert(pv.take(i + 1).drop_last() =~= pv.take(i as int));
            assert(pv.take(i + 1).last() == parts@[i as int]@);
        }
        if i > 0 {
            r.append(sep);
        } else {
            proof {
                assert(pv.take(1) =~= seq![parts@[0]@]);
            }
        }
        r.append(parts[i].as_str());
        proof {
            if i == 0 {
                assert(r@ =~= parts@[0]@);
            }
        }
        i = i + 1;
    }
    proof {
        assert(pv.take(parts.len() as int) =~= pv);
    }
    r
}

// ───────────────────────── screen and overlays ─────────────────────────

/// Which panes the main area shows.
#[derive(Debug, Clone, Copy, PartialEq, Eq, Structural)]
pub enum Screen {
    /// Code search: query and results on the left, the file on the right.
    CodeSearch,
    /// The issues list, with a preview of the selected issue.
    IssueList,
    /// The issues list, with the open issue and its comments.
    IssueDetail,
    /// The notifications, across the whole width.
    Notifications,
    /// The file browser, with a preview of the selected file.
    Files,
    /// A user's profile and repositories, with the README.
    Profile,
    /// The user's own repositories, with the README.
    MyRepos,
    /// The search bar and results, with the README.
    Search,
}

pub open spec fn screen_of(state: AppState, tab: Tab) -> Screen {
    match state {
        AppState::SearchingCode | AppState::ViewingCodeResults => Screen::CodeSearch,
        AppState::ViewingIssues => Screen::IssueList,
        AppState::ViewingIssue => Screen::IssueDetail,
        AppState::ViewingNotifications => Screen::Notifications,
        AppState::FileBrowsing => Screen::Files,
        AppState::ViewingProfile => Screen::Profile,
        _ => if tab == Tab::MyRepos {
            Screen::MyRepos
        } else {
            Screen::Search
        },
    }
}

/// The panes of the main area in the current state and tab.
pub fn screen(app: &App) -> (r: Screen)
    ensures
        r == screen_of(app.state, app.tab),
{
    match &app.state {
        AppState::SearchingCode | AppState::ViewingCodeResults => Screen::CodeSearch,
        AppState::ViewingIssues => Screen::IssueList,
        AppState::ViewingIssue => Screen::IssueDetail,
        AppState::ViewingNotifications => Screen::Notifications,
        AppState::FileBrowsing => Screen::Files,
        AppState::ViewingProfile => Screen::Profile,
        _ => if app.tab == Tab::MyRepos {
            Screen::MyRepos
        } else {
            Screen::Search
        },
    }
}

/// What is drawn over the panes.
pub enum Overlay {
    Nothing,
    /// An error message, dismissed by any key.
    Error(String),
    Help,
    /// A one-line prompt: its title, and its text with the cursor marked.
    Input { title: String, text: String },
    /// The sparse clone prompt of the current step.
    Sparse { title: String, text: String, hint: String },
    /// A question answered with y or n.
    Confirm(String),
    /// The new-issue form: whether the body has the focus, and the title and
    /// body with the cursor marked.
    NewIssue { body_focused: bool, title: String, body: String },
}

/// The text of a field with a `_` at the cursor.
pub open spec fn cursor_text(t: TextInput) -> Seq<char> {
    t.value@.insert(t.pos(), '_')
}

/// The title of a one-line prompt.
pub open spec fn input_title(prompt: Seq<char>) -> Seq<char> {
    prompt + " (Enter to confirm, Esc to cancel)"@
}

/// The question asked before deleting the selected repository.
pub open spec fn delete_question(app: App) -> Seq<char> {
    let name = match opt_at(app.my_repos@, app.my_repos_selected as int) {
        Some(r) => r.full_name@,
        None => "this repo"@,
    };
    "Delete "@ + name + "? (y/n)"@
}

fn input_overlay(prompt: &str, t: &TextInput) -> (r: Overlay)
    requires
        t.wf(),
    ensures
        r matches Overlay::Input { title, text } && title@ == input_title(prompt@) && text@
            == cursor_text(*t),
{
    let mut title = String::from_str(prompt);
    title.append(" (Enter to confirm, Esc to cancel)");
    Overlay::Input { title, text: t.display_with_cursor() }
}

/// The overlay that the current state draws over the panes.
pub fn overlay(app: &App) -> (r: Overlay)
    requires
        app.wf(),
    ensures
        match app.state {
            AppState::Error(m) => r matches Overlay::Error(x) && x@ == m@,
            AppState::Help => r is Help,
            AppState::Cloning => r matches Overlay::Input { title, text } && title@ == input_title(
                "Clone path:"@,
            ) && text@ == cursor_text(app.clone_path_input),
            AppState::FileSaving => r matches Overlay::Input { title, text } && title@
                == input_title("Save file to path:"@) && text@ == cursor_text(
                app.file_save_path_input,
            ),
            AppState::Renaming => r matches Overlay::Input { title, text } && title@ == input_title(
                "Rename repo:"@,
            ) && text@ == cursor_text(app.rename_input),
            AppState::SparseCloning => r matches Overlay::Sparse { title, text, hint } && (
            match app.sparse_step {
                SparseStep::Path => title@ == "Sparse clone — step 1/2: path"@ && text@
                    == cursor_text(app.sparse_path_input) && hint@
                    == "Enter destination path, then press Enter"@,
                SparseStep::Dirs => title@ == "Sparse clone — step 2/2: directories"@ && text@
                    == cursor_text(app.sparse_dirs_input) && hint@
                    == "Space-separated dirs (e.g. src docs). Leave empty for all."@,
            }),
            AppState::ConfirmDelete => r matches Overlay::Confirm(q) && q@ == delete_question(*app),
            AppState::CreatingIssue => r matches Overlay::NewIssue { body_focused, title, body }
                && body_focused == app.new_issue_focus_body && title@ == cursor_text(
                app.new_issue_title,
            ) && body@ == cursor_text(app.new_issue_body),
            _ => r is Nothing,
        },
{
    match &app.state {
        AppState::Error(m) => Overlay::Error(m.clone()),
        AppState::Help => Overlay::Help,
        AppState::Cloning => input_overlay("Clone path:", &app.clone_path_input),
        AppState::FileSaving => input_overlay("Save file to path:", &app.file_save_path_input),
        AppState::Renaming => input_overlay("Rename repo:", &app.rename_input),
        AppState::SparseCloning => match app.sparse_step {
            SparseStep::Path => Overlay::Sparse {
                title: String::from_str("Sparse clone — step 1/2: path"),
                text: app.sparse_path_input.display_with_cursor(),
                hint: String::from_str("Enter destination path, then press Enter"),
            },
            SparseStep::Dirs => Overlay::Sparse {
                title: String::from_str("Sparse clone — step 2/2: directories"),
                text: app.sparse_dirs_input.display_with_cursor(),
                hint: String::from_str("Space-separated dirs (e.g. src docs). Leave empty for all."),
            },
        },
        AppState::ConfirmDelete => {
            let mut q = String::from_str("Delete ");
            match app.selected_my_repo() {
                Some(r) => q.append(r.full_name.as_str()),
                None => q.append("this repo"),
            }
            q.append("? (y/n)");
            Overlay::Confirm(q)
        },
        AppState::CreatingIssue => Overlay::NewIssue {
            body_focused: app.new_issue_focus_body,
            title: app.new_issue_title.display_with_cursor(),
            body: app.new_issue_body.display_with_cursor(),
        },
        _ => Overlay::Nothing,
    }
}

// ───────────────────────── tab bar and search bar ─────────────────────────

/// A tab: `[key:label]` in bold cyan when active, ` key:label ` in dark
/// grey otherwise.
pub open spec fn tab_span(key: Seq<char>, label: Seq<char>, active: bool) -> SpanView {
    if active {
        span("["@ + key + ":"@ + label + "]"@, strong(MdColor::Cyan))
    } else {
        span(" "@ + key + ":"@ + label + " "@, colored(MdColor::DarkGray))
    }
}

/// The tab bar: search, my repositories and notifications; the
/// notifications tab is active while they are shown, otherwise the
/// current tab is.
pub open spec fn tab_bar_spans(state: AppState, tab: Tab) -> Seq<SpanView> {
    let notes = state is ViewingNotifications;
    seq![
        span(" "@, plain()),
        tab_span("1"@, "Search"@, tab == Tab::Search && !notes),
        span("  "@, plain()),
        tab_span("2"@, "My Repos"@, tab == Tab::MyRepos && !notes),
        span("  "@, plain()),
        tab_span("3"@, "Notifications"@, notes),
        span("  "@, plain()),
    ]
}

fn push_tab(line: &mut Vec<MdSpan>, key: &str, label: &str, active: bool)
    ensures
        spans_view(final(line)@) == spans_view(old(line)@).push(tab_span(key@, label@, active)).push(
            span("  "@, plain()),
        ),
{
    if active {
        let mut t = String::from_str("[");
        t.append(key);
        t.append(":");
        t.append(label);
        t.append("]");
        push_span(line, t, strong_style(MdColor::Cyan));
    } else {
        let mut t = String::from_str(" ");
        t.append(key);
        t.append(":");
        t.append(label);
        t.append(" ");
        push_span(line, t, colored_style(MdColor::DarkGray));
    }
    push_span(line, String::from_str("  "), plain_style());
}

/// The tab bar as a line.
pub fn tab_bar(app: &App) -> (r: Vec<MdSpan>)
    ensures
        spans_view(r@) == tab_bar_spans(app.state, app.tab),
{
    let notes = matches!(app.state, AppState::ViewingNotifications);
    let mut line: Vec<MdSpan> = Vec::new();
    push_span(&mut line, String::from_str(" "), plain_style());
    push_tab(&mut line, "1", "Search", app.tab == Tab::Search && !notes);
    push_tab(&mut line, "2", "My Repos", app.tab == Tab::MyRepos && !notes);
    push_tab(&mut line, "3", "Notifications", notes);
    proof {
        assert(spans_view(line@) =~= tab_bar_spans(app.state, app.tab));
    }
    line
}

/// The search bar: its title (with the language filter), its text, and
/// whether it has the focus.
pub struct SearchBar {
    pub title: String,
    pub text: String,
    pub focused: bool,
}

pub open spec fn search_title(app: App) -> Seq<char> {
    match language_name(app.language_idx as int) {
        Some(l) => "Search ["@ + l + "]"@,
        None => "Search"@,
    }
}

/// The text of the search bar: a prompt when it is empty and not focused,
/// the query with the cursor marked while typing, the query otherwise.
pub open spec fn search_text(app: App) -> Seq<char> {
    let focused = app.state is Searching;
    if app.search_query.value@.len() == 0 && !focused {
        "Press / to search..."@
    } else if focused {
        cursor_text(app.search_query)
    } else {
        app.search_query.value@
    }
}

pub fn search_bar(app: &App) -> (r: SearchBar)
    requires
        app.wf(),
    ensures
        r.focused == app.state is Searching,
        r.title@ == search_title(*app),
        r.text@ == search_text(*app),
{
    let focused = matches!(app.state, AppState::Searching);
    let text = if app.search_query.is_empty() && !focused {
        String::from_str("Press / to search...")
    } else if focused {
        app.search_query.display_with_cursor()
    } else {
        String::from_str(app.search_query.as_str())
    };
    let title = match app.current_language() {
        Some(l) => {
            let mut t = String::from_str("Search [");
            t.append(l);
            t.append("]");
            t
        },
        None => String::from_str("Search"),
    };
    SearchBar { title, text, focused }
}

// ───────────────────────── titles and placeholders ─────────────────────────

/// ` [loading...]` while loading.
pub open spec fn loading_suffix(loading: bool) -> Seq<char> {
    if loading {
        " [loading...]"@
    } else {
        Seq::empty()
    }
}

fn append_loading(s: &mut String, loading: bool)
    ensures
        final(s)@ == old(s)@ + loading_suffix(loading),
{
    if loading {
        s.append(" [loading...]");
    } else {
        proof {
            assert(old(s)@ + Seq::<char>::empty() =~= old(s)@);
        }
    }
}

/// `label (count)`.
pub open spec fn counted(label: Seq<char>, n: nat) -> Seq<char> {
    label + " ("@ + decimal(n) + ")"@
}

fn counted_text(label: &str, n: usize) -> (r: String)
    ensures
        r@ == counted(label@, n as nat),
{
    let mut t = String::from_str(label);
    t.append(" (");
    t.append(u64_to_decimal(n as u64).as_str());
    t.append(")");
    t
}

pub open spec fn results_title(app: App) -> Seq<char> {
    counted("Results"@, app.results@.len()) + loading_suffix(app.loading)
}

/// The title of the search results list.
pub fn results_list_title(app: &App) -> (r: String)
    ensures
        r@ == results_title(*app),
{
    let mut t = counted_text("Results", app.results.len());
    append_loading(&mut t, app.loading);
    t
}

/// The header above the user's own repositories.
pub fn my_repos_header(app: &App) -> (r: String)
    ensures
        r@ == "My Repos"@ + loading_suffix(app.my_repos_loading),
{
    let mut t = String::from_str("My Repos");
    append_loading(&mut t, app.my_repos_loading);
    t
}

/// The title of the user's own repositories list.
pub fn my_repos_title(app: &App) -> (r: String)
    ensures
        r@ == counted("Repos"@, app.my_repos@.len()),
{
    counted_text("Repos", app.my_repos.len())
}

pub open spec fn profile_repos_title(app: App) -> Seq<char> {
    let login = match app.profile_user {
        Some(p) => p.login@,
        None => "user"@,
    };
    counted(login + "'s repos"@, app.profile_repos@.len())
}

/// The title of a profile's repository list.
pub fn profile_repos_list_title(app: &App) -> (r: String)
    ensures
        r@ == profile_repos_title(*app),
{
    let mut login = match &app.profile_user {
        Some(p) => p.login.clone(),
        None => String::from_str("user"),
    };
    login.append("'s repos");
    counted_text(login.as_str(), app.profile_repos.len())
}

pub open spec fn readme_title(app: App) -> Seq<char> {
    match opt_at(app.results@, app.selected as int) {
        Some(r) => "README — "@ + r.full_name@,
        None => "README"@,
    }
}

/// The title of the README pane.
pub fn readme_pane_title(app: &App) -> (r: String)
    ensures
        r@ == readme_title(*app),
{
    match app.selected_repo() {
        Some(r) => {
            let mut t = String::from_str("README — ");
            t.append(r.full_name.as_str());
            t
        },
        None => String::from_str("README"),
    }
}

pub open spec fn readme_placeholder(app: App) -> Seq<char> {
    if app.loading || opt_at(app.results@, app.selected as int) is Some {
        "Loading README..."@
    } else {
        "Search for repos to get started"@
    }
}

/// What the README pane says while there is no README to show.
pub fn readme_pane_placeholder(app: &App) -> (r: &'static str)
    ensures
        r@ == readme_placeholder(*app),
{
    if app.loading || app.selected_repo().is_some() {
        "Loading README..."
    } else {
        "Search for repos to get started"
    }
}

pub open spec fn files_title(app: App) -> Seq<char> {
    let repo = match app.active() {
        Some(r) => r.full_name@,
        None => Seq::empty(),
    };
    let path = if app.file_path_stack@.len() > 0 {
        app.file_path_stack@.last()@
    } else {
        Seq::empty()
    };
    if path.len() == 0 {
        "Files — "@ + repo
    } else {
        "Files — "@ + repo + "/"@ + path
    }
}

/// The title of the file browser.
pub fn files_pane_title(app: &App) -> (r: String)
    ensures
        r@ == files_title(*app),
{
    let mut t = String::from_str("Files — ");
    match app.active_repo() {
        Some(r) => t.append(r.full_name.as_str()),
        None => {
            proof {
                assert(t@ + Seq::<char>::empty() =~= t@);
            }
        },
    }
    let path = app.current_file_path();
    if path.unicode_len() > 0 {
        t.append("/");
        t.append(path);
    }
    t
}

pub open spec fn preview_title(app: App) -> Seq<char> {
    match opt_at(app.file_entries@, app.file_selected as int) {
        Some(e) => e.path@,
        None => "Preview"@,
    }
}

/// The title of the file preview pane.
pub fn preview_pane_title(app: &App) -> (r: String)
    ensures
        r@ == preview_title(*app),
{
    match app.selected_entry() {
        Some(e) => e.path.clone(),
        None => String::from_str("Preview"),
    }
}

pub open spec fn preview_placeholder(app: App) -> Seq<char> {
    if app.loading {
        "Loading..."@
    } else {
        match opt_at(app.file_entries@, app.file_selected as int) {
            Some(e) => if e.entry_type == EntryType::Dir {
                "Press l to enter directory"@
            } else {
                "Press l to preview file"@
            },
            None => Seq::empty(),
        }
    }
}

/// What the file preview pane says while no file is loaded.
pub fn preview_pane_placeholder(app: &App) -> (r: String)
    ensures
        r@ == preview_placeholder(*app),
{
    if app.loading {
        return String::from_str("Loading...");
    }
    match app.selected_entry() {
        Some(e) => if e.entry_type == EntryType::Dir {
            String::from_str("Press l to enter directory")
        } else {
            String::from_str("Press l to preview file")
        },
        None => String::new(),
    }
}

/// Whether `s` ends with `suffix`.
pub open spec fn has_suffix(s: Seq<char>, suffix: Seq<char>) -> bool {
    s.len() >= suffix.len() && s.skip(s.len() - suffix.len()) == suffix
}

pub fn ends_with(s: &str, suffix: &str) -> (r: bool)
    ensures
        r == has_suffix(s@, suffix@),
{
    let n = s.unicode_len();
    let m = suffix.unicode_len();
    if n < m {
        return false;
    }
    let mut i: usize = 0;
    while i < m
        invariant
            n == s@.len(),
            m == suffix@.len(),
            m <= n,
            i <= m,
            forall|j: int| 0 <= j < i ==> s@[n - m + j] == suffix@[j],
        decreases m - i,
    {
        if s.get_char(n - m + i) != suffix.get_char(i) {
            proof {
                assert(s@.skip(n - m)[i as int] != suffix@[i as int]);
            }
            return false;
        }
        i = i + 1;
    }
    proof {
        assert(s@.skip(n - m) =~= suffix@);
    }
    true
}

/// A file whose preview is laid out as markdown: a name ending in `.md` or
/// `.markdown`.
pub open spec fn is_markdown(name: Seq<char>) -> bool {
    has_suffix(name, ".md"@) || has_suffix(name, ".markdown"@)
}

pub fn is_markdown_name(name: &str) -> (r: bool)
    ensures
        r == is_markdown(name@),
{
    ends_with(name, ".md") || ends_with(name, ".markdown")
}

/// The tab part of the issues title.
pub open spec fn issue_tab_label(tab: IssueTab) -> Seq<char> {
    match tab {
        IssueTab::Issues => "[Issues] PRs  "@,
        IssueTab::PullRequests => " Issues [PRs] "@,
    }
}

pub open spec fn issues_title(app: App) -> Seq<char> {
    let repo = match app.active() {
        Some(r) => r.full_name@,
        None => Seq::empty(),
    };
    repo + "  "@ + issue_tab_label(app.issue_tab) + "  "@ + counted(
        filter_label(app.issue_filter),
        app.issues@.len(),
    ) + if app.issues_loading {
        " loading..."@
    } else {
        Seq::empty()
    }
}

/// The title of the issues list: repository, issues or pull requests,
/// filter and count.
pub fn issues_list_title(app: &App) -> (r: String)
    ensures
        r@ == issues_title(*app),
{
    let mut t = match app.active_repo() {
        Some(r) => r.full_name.clone(),
        None => String::new(),
    };
    t.append("  ");
    match app.issue_tab {
        IssueTab::Issues => t.append("[Issues] PRs  "),
        IssueTab::PullRequests => t.append(" Issues [PRs] "),
    }
    t.append("  ");
    t.append(counted_text(app.issue_filter.label(), app.issues.len()).as_str());
    if app.issues_loading {
        t.append(" loading...");
    } else {
        proof {
            assert(t@ + Seq::<char>::empty() =~= t@);
        }
    }
    t
}

/// The title of the issue preview pane.
pub fn issue_preview_title(tab: IssueTab) -> (r: &'static str)
    ensures
        r@ == (match tab {
            IssueTab::Issues => "Issue Preview — l/Enter to open"@,
            IssueTab::PullRequests => "PR Preview — l/Enter to open"@,
        }),
{
    match tab {
        IssueTab::Issues => "Issue Preview — l/Enter to open",
        IssueTab::PullRequests => "PR Preview — l/Enter to open",
    }
}

pub open spec fn notifications_title(app: App) -> Seq<char> {
    "Notifications ["@ + (if app.notifications_unread_only {
        "Unread"@
    } else {
        "All"@
    }) + "]"@ + " ("@ + decimal(app.notifications@.len()) + ")"@ + loading_suffix(
        app.notifications_loading,
    )
}

/// The title of the notifications list.
pub fn notifications_list_title(app: &App) -> (r: String)
    ensures
        r@ == notifications_title(*app),
{
    let mut t = String::from_str("Notifications [");
    if app.notifications_unread_only {
        t.append("Unread");
    } else {
        t.append("All");
    }
    t.append("]");
    t.append(" (");
    t.append(u64_to_decimal(app.notifications.len() as u64).as_str());
    t.append(")");
    append_loading(&mut t, app.notifications_loading);
    t
}

// ───────────────────────── list rows ─────────────────────────

fn push_line(lines: &mut Vec<Vec<MdSpan>>, line: Vec<MdSpan>)
    ensures
        lines_view(final(lines)@) == lines_view(old(lines)@).push(spans_view(line@)),
{
    let ghost before = lines@;
    let ghost l = line;
    lines.push(line);
    proof {
        assert(lines_view(before.push(l)) =~= lines_view(before).push(spans_view(l@)));
    }
}

fn two_lines(first: Vec<MdSpan>, second: Vec<MdSpan>) -> (lines: Vec<Vec<MdSpan>>)
    ensures
        lines_view(lines@) == seq![spans_view(first@), spans_view(second@)],
{
    let ghost a = first;
    let ghost b = second;
    let mut lines: Vec<Vec<MdSpan>> = Vec::new();
    lines.push(first);
    lines.push(second);
    proof {
        assert(lines@ =~= seq![a, b]);
        assert(lines_view(lines@) =~= seq![spans_view(a@), spans_view(b@)]);
    }
    lines
}

/// The star mark of a row: a yellow star for a starred repository.
pub open spec fn star_mark(starred: bool) -> SpanView {
    if starred {
        span("★ "@, colored(MdColor::Yellow))
    } else {
        span("  "@, plain())
    }
}

/// The first line of a repository row: star mark, name (38 wide) in bold
/// cyan, language (12 wide, `—` when unknown) in green, stars in yellow.
pub open spec fn repo_head(r: Repo, name: Seq<char>, starred: bool, stars: Seq<char>) -> Seq<SpanView> {
    let lang = match r.language {
        Some(l) => l@,
        None => "—"@,
    };
    seq![
        star_mark(starred),
        span(padded(name, 38), strong(MdColor::Cyan)),
        span(padded(lang, 12), colored(MdColor::Green)),
        span(stars, colored(MdColor::Yellow)),
    ]
}

/// The description of a row: its first 60 characters.
pub open spec fn short_description(r: Repo) -> Seq<char> {
    match r.description {
        Some(d) => first_chars(d@, 60),
        None => Seq::empty(),
    }
}

/// The badges of an owned repository row.
pub open spec fn badges(r: Repo) -> Seq<char> {
    (if r.archived {
        "[archived] "@
    } else {
        Seq::empty()
    }) + (if r.fork {
        "[fork] "@
    } else {
        Seq::empty()
    })
}

fn repo_head_line(r: &Repo, name: &str, starred: bool, stars: &str) -> (l: Vec<MdSpan>)
    ensures
        spans_view(l@) == repo_head(*r, name@, starred, stars@),
{
    let mut l: Vec<MdSpan> = Vec::new();
    if starred {
        push_span(&mut l, String::from_str("★ "), colored_style(MdColor::Yellow));
    } else {
        push_span(&mut l, String::from_str("  "), plain_style());
    }
    push_span(&mut l, pad_to(name, 38), strong_style(MdColor::Cyan));
    let lang = match &r.language {
        Some(x) => pad_to(x.as_str(), 12),
        None => pad_to("—", 12),
    };
    push_span(&mut l, lang, colored_style(MdColor::Green));
    push_span(&mut l, String::from_str(stars), colored_style(MdColor::Yellow));
    proof {
        assert(spans_view(l@) =~= repo_head(*r, name@, starred, stars@));
    }
    l
}

fn short_description_of(r: &Repo) -> (d: String)
    ensures
        d@ == short_description(*r),
{
    match &r.description {
        Some(x) => take_chars(x.as_str(), 60),
        None => String::new(),
    }
}

pub open spec fn result_row(r: Repo, starred: bool, stars: Seq<char>) -> Seq<Seq<SpanView>> {
    seq![
        repo_head(r, r.full_name@, starred, stars),
        seq![span("  "@ + short_description(r), colored(MdColor::DarkGray))],
    ]
}

/// A search result as two lines: its head line by full name, and its
/// description. `stars` is the star count as it is shown.
pub fn result_row_lines(r: &Repo, starred: bool, stars: &str) -> (lines: Vec<Vec<MdSpan>>)
    ensures
        lines_view(lines@) == result_row(*r, starred, stars@),
{
    let first = repo_head_line(r, r.full_name.as_str(), starred, stars);
    let mut second: Vec<MdSpan> = Vec::new();
    let mut d = String::from_str("  ");
    d.append(short_description_of(r).as_str());
    push_span(&mut second, d, colored_style(MdColor::DarkGray));
    proof {
        assert(spans_view(second@) =~= result_row(*r, starred, stars@)[1]);
    }
    two_lines(first, second)
}

pub open spec fn owned_row(r: Repo, starred: bool, stars: Seq<char>) -> Seq<Seq<SpanView>> {
    seq![
        repo_head(r, r.name@, starred, stars),
        seq![
            span("  "@ + badges(r), colored(MdColor::DarkGray)),
            span(short_description(r), colored(MdColor::DarkGray)),
        ],
    ]
}

/// A repository of the user or of a profile as two lines: its head line by
/// name, and its badges and description.
pub fn owned_row_lines(r: &Repo, starred: bool, stars: &str) -> (lines: Vec<Vec<MdSpan>>)
    ensures
        lines_view(lines@) == owned_row(*r, starred, stars@),
{
    let first = repo_head_line(r, r.name.as_str(), starred, stars);
    let mut b = String::from_str("  ");
    if r.archived {
        b.append("[archived] ");
    }
    if r.fork {
        b.append("[fork] ");
    }
    proof {
        assert(b@ =~= "  "@ + badges(*r));
    }
    let mut second: Vec<MdSpan> = Vec::new();
    push_span(&mut second, b, colored_style(MdColor::DarkGray));
    push_span(&mut second, short_description_of(r), colored_style(MdColor::DarkGray));
    proof {
        assert(spans_view(second@) =~= owned_row(*r, starred, stars@)[1]);
    }
    two_lines(first, second)
}

/// A file browser entry: `▶ ` and the name in bold cyan for a directory,
/// a space and the name in white for a file.
pub open spec fn entry_spans(e: FileEntry) -> Seq<SpanView> {
    if e.entry_type == EntryType::Dir {
        seq![span("▶ "@, strong(MdColor::Cyan)), span(e.name@, strong(MdColor::Cyan))]
    } else {
        seq![span(" "@, colored(MdColor::White)), span(e.name@, colored(MdColor::White))]
    }
}

pub fn entry_line(e: &FileEntry) -> (l: Vec<MdSpan>)
    ensures
        spans_view(l@) == entry_spans(*e),
{
    let mut l: Vec<MdSpan> = Vec::new();
    match e.entry_type {
        EntryType::Dir => {
            push_span(&mut l, String::from_str("▶ "), strong_style(MdColor::Cyan));
            push_span(&mut l, e.name.clone(), strong_style(MdColor::Cyan));
        },
        EntryType::File => {
            push_span(&mut l, String::from_str(" "), colored_style(MdColor::White));
            push_span(&mut l, e.name.clone(), colored_style(MdColor::White));
        },
    }
    proof {
        assert(spans_view(l@) =~= entry_spans(*e));
    }
    l
}

/// Whether an issue is open.
pub open spec fn is_open(i: Issue) -> bool {
    i.state@ == "open"@
}

/// The labels of an issue after its title: ` [a, b]`, nothing when there
/// are none.
pub open spec fn labels_text(i: Issue) -> Seq<char> {
    if i.labels@.len() == 0 {
        Seq::empty()
    } else {
        " ["@ + joined_with(i.labels@.map_values(|x: String| x@), ", "@) + "]"@
    }
}

pub open spec fn issue_row(i: Issue) -> Seq<Seq<SpanView>> {
    seq![
        seq![
            if is_open(i) {
                span("● "@, colored(MdColor::Green))
            } else {
                span("○ "@, colored(MdColor::Red))
            },
            span("#"@ + padded(decimal(i.number as nat), 6), strong(MdColor::Yellow)),
            span(first_chars(i.title@, 50), strong(MdColor::White)),
            span(labels_text(i), colored(MdColor::Cyan)),
        ],
        seq![
            span("  "@, plain()),
            span("@"@ + i.user_login@ + "  "@, colored(MdColor::DarkGray)),
            span("💬 "@ + decimal(i.comments as nat) + "  "@, colored(MdColor::DarkGray)),
            span(date_part(i.created_at@), colored(MdColor::DarkGray)),
        ],
    ]
}

/// An issue as two lines: open or closed mark, number, title and labels;
/// author, comment count and date.
pub fn issue_row_lines(i: &Issue) -> (lines: Vec<Vec<MdSpan>>)
    ensures
        lines_view(lines@) == issue_row(*i),
{
    let open = eq_str(i.state.as_str(), "open");
    let mut first: Vec<MdSpan> = Vec::new();
    if open {
        push_span(&mut first, String::from_str("● "), colored_style(MdColor::Green));
    } else {
        push_span(&mut first, String::from_str("○ "), colored_style(MdColor::Red));
    }
    let mut num = String::from_str("#");
    num.append(pad_to(u64_to_decimal(i.number).as_str(), 6).as_str());
    push_span(&mut first, num, strong_style(MdColor::Yellow));
    push_span(&mut first, take_chars(i.title.as_str(), 50), strong_style(MdColor::White));
    let labels = if i.labels.len() == 0 {
        String::new()
    } else {
        let mut t = String::from_str(" [");
        t.append(join_strs(&i.labels, ", ").as_str());
        t.append("]");
        t
    };
    push_span(&mut first, labels, colored_style(MdColor::Cyan));
    let mut second: Vec<MdSpan> = Vec::new();
    push_span(&mut second, String::from_str("  "), plain_style());
    let mut who = String::from_str("@");
    who.append(i.user_login.as_str());
    who.append("  ");
    push_span(&mut second, who, colored_style(MdColor::DarkGray));
    let mut talk = String::from_str("💬 ");
    talk.append(u64_to_decimal(i.comments).as_str());
    talk.append("  ");
    push_span(&mut second, talk, colored_style(MdColor::DarkGray));
    push_span(&mut second, date_of(i.created_at.as_str()), colored_style(MdColor::DarkGray));
    proof {
        assert(spans_view(first@) =~= issue_row(*i)[0]);
        assert(spans_view(second@) =~= issue_row(*i)[1]);
    }
    two_lines(first, second)
}

/// The colour of a notification's subject type.
pub open spec fn subject_color(t: Seq<char>) -> MdColor {
    if t == "PullRequest"@ {
        MdColor::Magenta
    } else if t == "Issue"@ {
        MdColor::Green
    } else if t == "Release"@ {
        MdColor::Yellow
    } else {
        MdColor::DarkGray
    }
}

pub open spec fn notification_row(n: Notification) -> Seq<Seq<SpanView>> {
    seq![
        seq![
            if n.unread {
                span("● "@, colored(MdColor::Cyan))
            } else {
                span("○ "@, colored(MdColor::DarkGray))
            },
            span(
                "["@ + padded(n.subject_type@, 12) + "]  "@,
                colored(subject_color(n.subject_type@)),
            ),
            span(
                first_chars(n.subject_title@, 55),
                if n.unread {
                    strong(MdColor::White)
                } else {
                    colored(MdColor::DarkGray)
                },
            ),
        ],
        seq![
            span("  "@, plain()),
            span(n.repo_full_name@ + "  "@, colored(MdColor::Cyan)),
            span("reason: "@ + n.reason@ + "  "@, colored(MdColor::DarkGray)),
            span(date_part(n.updated_at@), colored(MdColor::DarkGray)),
        ],
    ]
}

/// A notification as two lines: unread mark, subject type and title;
/// repository, reason and date.
pub fn notification_row_lines(n: &Notification) -> (lines: Vec<Vec<MdSpan>>)
    ensures
        lines_view(lines@) == notification_row(*n),
{
    let mut first: Vec<MdSpan> = Vec::new();
    if n.unread {
        push_span(&mut first, String::from_str("● "), colored_style(MdColor::Cyan));
    } else {
        push_span(&mut first, String::from_str("○ "), colored_style(MdColor::DarkGray));
    }
    let kind = n.subject_type.as_str();
    let color = if eq_str(kind, "PullRequest") {
        MdColor::Magenta
    } else if eq_str(kind, "Issue") {
        MdColor::Green
    } else if eq_str(kind, "Release") {
        MdColor::Yellow
    } else {
        MdColor::DarkGray
    };
    let mut t = String::from_str("[");
    t.append(pad_to(kind, 12).as_str());
    t.append("]  ");
    push_span(&mut first, t, colored_style(color));
    let title_style = if n.unread {
        strong_style(MdColor::White)
    } else {
        colored_style(MdColor::DarkGray)
    };
    push_span(&mut first, take_chars(n.subject_title.as_str(), 55), title_style);
    let mut second: Vec<MdSpan> = Vec::new();
    push_span(&mut second, String::from_str("  "), plain_style());
    let mut repo = n.repo_full_name.clone();
    repo.append("  ");
    push_span(&mut second, repo, colored_style(MdColor::Cyan));
    let mut why = String::from_str("reason: ");
    why.append(n.reason.as_str());
    why.append("  ");
    push_span(&mut second, why, colored_style(MdColor::DarkGray));
    push_span(&mut second, date_of(n.updated_at.as_str()), colored_style(MdColor::DarkGray));
    proof {
        assert(spans_view(first@) =~= notification_row(*n)[0]);
        assert(spans_view(second@) =~= notification_row(*n)[1]);
    }
    two_lines(first, second)
}

// ───────────────────────── texts of the panes ─────────────────────────

/// Lines of text as they are, one plain span each.
pub open spec fn raw_lines(ls: Seq<Seq<char>>) -> Seq<Seq<SpanView>> {
    ls.map_values(|l: Seq<char>| seq![span(l, plain())])
}

fn blank_line() -> (l: Vec<MdSpan>)
    ensures
        spans_view(l@) == Seq::<SpanView>::empty(),
{
    let l: Vec<MdSpan> = Vec::new();
    proof {
        assert(spans_view(l@) =~= Seq::<SpanView>::empty());
    }
    l
}

fn one_span_line(text: String, style: MdStyle) -> (l: Vec<MdSpan>)
    ensures
        spans_view(l@) == seq![span(text@, style)],
{
    let mut l: Vec<MdSpan> = Vec::new();
    push_span(&mut l, text, style);
    proof {
        assert(spans_view(l@) =~= seq![span(text@, style)]);
    }
    l
}

/// Adds the first `limit` lines of `text` (all of them when `limit` is
/// `None`), each as it is.
fn push_text_lines(lines: &mut Vec<Vec<MdSpan>>, text: &str, limit: Option<usize>)
    ensures
        lines_view(final(lines)@) == lines_view(old(lines)@) + raw_lines(
            match limit {
                Some(n) => if str_lines(text@).len() <= n {
                    str_lines(text@)
                } else {
                    str_lines(text@).take(n as int)
                },
                None => str_lines(text@),
            },
        ),
{
    let ls = split_lines(text);
    let ghost lv = ls@.map_values(|x: String| x@);
    let n = match limit {
        Some(m) => if ls.len() <= m {
            ls.len()
        } else {
            m
        },
        None => ls.len(),
    };
    let ghost start = lines_view(lines@);
    let mut i: usize = 0;
    proof {
        assert(raw_lines(lv.take(0)) =~= Seq::<Seq<SpanView>>::empty());
        assert(start + Seq::<Seq<SpanView>>::empty() =~= start);
    }
    while i < n
        invariant
            n <= ls.len(),
            i <= n,
            lv == ls@.map_values(|x: String| x@),
            lines_view(lines@) == start + raw_lines(lv.take(i as int)),
        decreases n - i,
    {
        push_line(lines, one_span_line(ls[i].clone(), plain_style()));
        proof {
            assert(raw_lines(lv.take(i + 1)) =~= raw_lines(lv.take(i as int)).push(
                seq![span(ls@[i as int]@, plain())],
            ));
            assert(start + raw_lines(lv.take(i + 1)) =~= (start + raw_lines(lv.take(i as int))).push(
                seq![span(ls@[i as int]@, plain())],
            ));
        }
        i = i + 1;
    }
    proof {
        if n == ls.len() {
            assert(lv.take(n as int) =~= lv);
        }
    }
}

pub open spec fn profile_header(app: App) -> Seq<Seq<SpanView>> {
    match app.profile_user {
        None => seq![
            seq![
                span(
                    if app.profile_loading {
                        "Loading profile..."@
                    } else {
                        Seq::empty()
                    },
                    colored(MdColor::DarkGray),
                ),
            ],
        ],
        Some(p) => {
            let name_line = seq![
                span(p.login@, strong(MdColor::Cyan)),
                match p.name {
                    Some(n) => span("  ("@ + n@ + ")"@, colored(MdColor::White)),
                    None => span(Seq::empty(), plain()),
                },
            ];
            let stats = "repos: "@ + decimal(p.public_repos as nat) + "  followers: "@ + decimal(
                p.followers as nat,
            ) + "  following: "@ + decimal(p.following as nat);
            let base = seq![name_line, seq![span(stats, colored(MdColor::DarkGray))]];
            match p.bio {
                Some(b) => if b@.len() > 0 {
                    base.push(seq![span(first_chars(b@, 80), colored(MdColor::White))])
                } else {
                    base
                },
                None => base,
            }
        },
    }
}

/// The profile header: login and name, counts, and the start of the bio;
/// while there is no profile, whether it is loading.
pub fn profile_header_lines(app: &App) -> (r: Vec<Vec<MdSpan>>)
    ensures
        lines_view(r@) == profile_header(*app),
{
    let mut r: Vec<Vec<MdSpan>> = Vec::new();
    match &app.profile_user {
        None => {
            let t = if app.profile_loading {
                String::from_str("Loading profile...")
            } else {
                String::new()
            };
            push_line(&mut r, one_span_line(t, colored_style(MdColor::DarkGray)));
        },
        Some(p) => {
            let mut name_line: Vec<MdSpan> = Vec::new();
            push_span(&mut name_line, p.login.clone(), strong_style(MdColor::Cyan));
            match &p.name {
                Some(n) => {
                    let mut t = String::from_str("  (");
                    t.append(n.as_str());
                    t.append(")");
                    push_span(&mut name_line, t, colored_style(MdColor::White));
                },
                None => {
                    push_span(&mut name_line, String::new(), plain_style());
                },
            }
            let ghost l1 = spans_view(name_line@);
            push_line(&mut r, name_line);
            let mut stats = String::from_str("repos: ");
            stats.append(u64_to_decimal(p.public_repos).as_str());
            stats.append("  followers: ");
            stats.append(u64_to_decimal(p.followers).as_str());
            stats.append("  following: ");
            stats.append(u64_to_decimal(p.following).as_str());
            push_line(&mut r, one_span_line(stats, colored_style(MdColor::DarkGray)));
            proof {
                assert(lines_view(r@) =~= seq![l1, seq![span(stats@, colored(MdColor::DarkGray))]]);
                assert(l1 =~= profile_header(*app)[0]);
            }
            match &p.bio {
                Some(b) => {
                    if b.as_str().unicode_len() > 0 {
                        push_line(
                            &mut r,
                            one_span_line(take_chars(b.as_str(), 80), colored_style(MdColor::White)),
                        );
                    }
                },
                None => {},
            }
        },
    }
    proof {
        assert(lines_view(r@) =~= profile_header(*app));
    }
    r
}

/// The head of an issue: number and title, then author, state and date.
pub open spec fn issue_head(i: Issue, numbered: bool) -> Seq<Seq<SpanView>> {
    seq![
        seq![
            span(
                if numbered {
                    "#"@ + decimal(i.number as nat) + " "@ + i.title@
                } else {
                    i.title@
                },
                strong(MdColor::White),
            ),
        ],
        seq![
            span(
                "@"@ + i.user_login@ + "  "@ + i.state@ + "  "@ + date_part(i.created_at@),
                colored(MdColor::DarkGray),
            ),
        ],
        Seq::empty(),
    ]
}

fn push_issue_head(lines: &mut Vec<Vec<MdSpan>>, i: &Issue, numbered: bool)
    ensures
        lines_view(final(lines)@) == lines_view(old(lines)@) + issue_head(*i, numbered),
{
    let head = if numbered {
        let mut t = String::from_str("#");
        t.append(u64_to_decimal(i.number).as_str());
        t.append(" ");
        t.append(i.title.as_str());
        t
    } else {
        i.title.clone()
    };
    push_line(lines, one_span_line(head, strong_style(MdColor::White)));
    let mut meta = String::from_str("@");
    meta.append(i.user_login.as_str());
    meta.append("  ");
    meta.append(i.state.as_str());
    meta.append("  ");
    meta.append(date_of(i.created_at.as_str()).as_str());
    push_line(lines, one_span_line(meta, colored_style(MdColor::DarkGray)));
    push_line(lines, blank_line());
    proof {
        assert(lines_view(lines@) =~= lines_view(old(lines)@) + issue_head(*i, numbered));
    }
}

/// The body of an issue as its lines (the first `limit` of them, if given),
/// or `(no description)`.
pub open spec fn issue_body(i: Issue, limit: Option<usize>) -> Seq<Seq<SpanView>> {
    match i.body {
        Some(b) => raw_lines(
            match limit {
                Some(n) => if str_lines(b@).len() <= n {
                    str_lines(b@)
                } else {
                    str_lines(b@).take(n as int)
                },
                None => str_lines(b@),
            },
        ),
        None => seq![seq![span("(no description)"@, colored(MdColor::DarkGray))]],
    }
}

fn push_issue_body(lines: &mut Vec<Vec<MdSpan>>, i: &Issue, limit: Option<usize>)
    ensures
        lines_view(final(lines)@) == lines_view(old(lines)@) + issue_body(*i, limit),
{
    match &i.body {
        Some(b) => push_text_lines(lines, b.as_str(), limit),
        None => {
            push_line(
                lines,
                one_span_line(String::from_str("(no description)"), colored_style(MdColor::DarkGray)),
            );
            proof {
                assert(lines_view(lines@) =~= lines_view(old(lines)@) + issue_body(*i, limit));
            }
        },
    }
}

pub open spec fn issue_preview(app: App) -> Seq<Seq<SpanView>> {
    match opt_at(app.issues@, app.issues_selected as int) {
        Some(i) => issue_head(i, true) + issue_body(i, Some(30)),
        None => seq![
            seq![
                span(
                    if app.issues_loading {
                        "Loading..."@
                    } else {
                        "No issues"@
                    },
                    colored(MdColor::DarkGray),
                ),
            ],
        ],
    }
}

/// The preview of the selected issue: its head and the first 30 lines of
/// its body; without a selection, whether issues are loading.
pub fn issue_preview_lines(app: &App) -> (r: Vec<Vec<MdSpan>>)
    ensures
        lines_view(r@) == issue_preview(*app),
{
    let mut r: Vec<Vec<MdSpan>> = Vec::new();
    proof {
        assert(lines_view(r@) =~= Seq::<Seq<SpanView>>::empty());
    }
    match get_at(&app.issues, app.issues_selected) {
        Some(i) => {
            push_issue_head(&mut r, i, true);
            push_issue_body(&mut r, i, Some(30));
            proof {
                assert(lines_view(r@) =~= issue_preview(*app));
            }
        },
        None => {
            let t = if app.issues_loading {
                String::from_str("Loading...")
            } else {
                String::from_str("No issues")
            };
            push_line(&mut r, one_span_line(t, colored_style(MdColor::DarkGray)));
            proof {
                assert(lines_view(r@) =~= issue_preview(*app));
            }
        },
    }
    r
}

/// The comments of an issue: for each, a blank line, author and date in
/// yellow, and its lines.
pub open spec fn comment_lines(cs: Seq<IssueComment>) -> Seq<Seq<SpanView>>
    decreases cs.len(),
{
    if cs.len() == 0 {
        Seq::empty()
    } else {
        let c = cs.last();
        comment_lines(cs.drop_last()) + seq![
            Seq::empty(),
            seq![
                span(
                    "@"@ + c.user_login@ + "  "@ + date_part(c.created_at@),
                    colored(MdColor::Yellow),
                ),
            ],
        ] + raw_lines(str_lines(c.body@))
    }
}

/// The open issue: its head, its whole body, and its comments under a
/// heading when there are any.
pub open spec fn issue_detail(i: Issue, cs: Seq<IssueComment>) -> Seq<Seq<SpanView>> {
    issue_head(i, false) + issue_body(i, None) + if cs.len() == 0 {
        Seq::empty()
    } else {
        seq![Seq::empty(), seq![span("── comments ──"@, strong(MdColor::Cyan))]] + comment_lines(cs)
    }
}

pub open spec fn issue_detail_title(i: Issue, comments: nat) -> Seq<char> {
    "#"@ + decimal(i.number as nat) + " — "@ + i.state@ + " — "@ + decimal(comments)
        + " comment(s)"@
}

/// The open issue pane: its title and lines, or `None` when no issue is open.
pub fn issue_detail_view(app: &App) -> (r: Option<(String, Vec<Vec<MdSpan>>)>)
    ensures
        match app.current_issue {
            Some(i) => r matches Some((t, ls)) && t@ == issue_detail_title(
                i,
                app.issue_comments@.len(),
            ) && lines_view(ls@) == issue_detail(i, app.issue_comments@),
            None => r is None,
        },
{
    let i = match &app.current_issue {
        Some(i) => i,
        None => return None,
    };
    let mut title = String::from_str("#");
    title.append(u64_to_decimal(i.number).as_str());
    title.append(" — ");
    title.append(i.state.as_str());
    title.append(" — ");
    title.append(u64_to_decimal(app.issue_comments.len() as u64).as_str());
    title.append(" comment(s)");
    let mut r: Vec<Vec<MdSpan>> = Vec::new();
    proof {
        assert(lines_view(r@) =~= Seq::<Seq<SpanView>>::empty());
    }
    push_issue_head(&mut r, i, false);
    push_issue_body(&mut r, i, None);
    let ghost body_part = lines_view(r@);
    let cs = &app.issue_comments;
    if cs.len() > 0 {
        push_line(&mut r, blank_line());
        push_line(
            &mut r,
            one_span_line(String::from_str("── comments ──"), strong_style(MdColor::Cyan)),
        );
        let ghost head_part = lines_view(r@);
        let mut k: usize = 0;
        proof {
            assert(cs@.take(0) =~= Seq::<IssueComment>::empty());
            assert(head_part + comment_lines(cs@.take(0)) =~= head_part);
        }
        while k < cs.len()
            invariant
                k <= cs.len(),
                lines_view(r@) == head_part + comment_lines(cs@.take(k as int)),
            decreases cs.len() - k,
        {
            let c = &cs[k];
            proof {
                assert(cs@.take(k + 1).drop_last() =~= cs@.take(k as int));
                assert(cs@.take(k + 1).last() == *c);
            }
            let ghost before = lines_view(r@);
            push_line(&mut r, blank_line());
            let mut who = String::from_str("@");
            who.append(c.user_login.as_str());
            who.append("  ");
            who.append(date_of(c.created_at.as_str()).as_str());
            push_line(&mut r, one_span_line(who, colored_style(MdColor::Yellow)));
            push_text_lines(&mut r, c.body.as_str(), None);
            proof {
                assert(lines_view(r@) =~= head_part + comment_lines(cs@.take(k + 1)));
            }
            k = k + 1;
        }
        proof {
            assert(cs@.take(cs.len() as int) =~= cs@);
            assert(lines_view(r@) =~= issue_detail(*i, cs@));
        }
    } else {
        proof {
            assert(lines_view(r@) =~= issue_detail(*i, cs@));
        }
    }
    Some((title, r))
}

/// The style of a label of the new-issue form: bold yellow with the focus,
/// dark grey without.
pub open spec fn field_label_style(focused: bool) -> MdStyle {
    if focused {
        strong(MdColor::Yellow)
    } else {
        colored(MdColor::DarkGray)
    }
}

pub fn field_label(focused: bool) -> (r: MdStyle)
    ensures
        r == field_label_style(focused),
{
    if focused {
        strong_style(MdColor::Yellow)
    } else {
        colored_style(MdColor::DarkGray)
    }
}

/// A section heading of the help overlay, in bold cyan.
pub open spec fn section_line(title: Seq<char>) -> Seq<SpanView> {
    seq![span(title, strong(MdColor::Cyan))]
}

/// A key of the help overlay (14 wide, bold white) and its action.
pub open spec fn row_line(key: Seq<char>, action: Seq<char>) -> Seq<SpanView> {
    seq![
        span("  "@, plain()),
        span(padded(key, 14), strong(MdColor::White)),
        span(action, colored(MdColor::DarkGray)),
    ]
}

fn help_section(title: &str) -> (l: Vec<MdSpan>)
    ensures
        spans_view(l@) == section_line(title@),
{
    one_span_line(String::from_str(title), strong_style(MdColor::Cyan))
}

fn help_row(key: &str, action: &str) -> (l: Vec<MdSpan>)
    ensures
        spans_view(l@) == row_line(key@, action@),
{
    let mut l: Vec<MdSpan> = Vec::new();
    push_span(&mut l, String::from_str("  "), plain_style());
    push_span(&mut l, pad_to(key, 14), strong_style(MdColor::White));
    push_span(&mut l, String::from_str(action), colored_style(MdColor::DarkGray));
    proof {
        assert(spans_view(l@) =~= row_line(key@, action@));
    }
    l
}

pub open spec fn help_search() -> Seq<Seq<SpanView>> {
    seq![
        section_line("search"@),
        row_line("/"@, "focus search input"@),
        row_line("Enter"@, "confirm search"@),
        row_line("Tab"@, "cycle language filter"@),
        row_line("r"@, "refresh results"@),
        Seq::<SpanView>::empty(),
    ]
}

fn push_help_search(r: &mut Vec<Vec<MdSpan>>)
    ensures
        lines_view(final(r)@) == lines_view(old(r)@) + help_search(),
{
    push_line(r, help_section("search"));
    push_line(r, help_row("/", "focus search input"));
    push_line(r, help_row("Enter", "confirm search"));
    push_line(r, help_row("Tab", "cycle language filter"));
    push_line(r, help_row("r", "refresh results"));
    push_line(r, blank_line());
    proof {
        assert(lines_view(r@) =~= lines_view(old(r)@) + help_search());
    }
}

pub open spec fn help_navigation() -> Seq<Seq<SpanView>> {
    seq![
        section_line("navigation"@),
        row_line("j / k"@, "move up / down"@),
        row_line("J / K"@, "scroll preview pane"@),
        row_line("l / Enter"@, "open file browser"@),
        row_line("h"@, "go up one dir / back to repos"@),
        row_line("Esc"@, "back / close overlay"@),
        Seq::<SpanView>::empty(),
    ]
}

fn push_help_navigation(r: &mut Vec<Vec<MdSpan>>)
    ensures
        lines_view(final(r)@) == lines_view(old(r)@) + help_navigation(),
{
    push_line(r, help_section("navigation"));
    push_line(r, help_row("j / k", "move up / down"));
    push_line(r, help_row("J / K", "scroll preview pane"));
    push_line(r, help_row("l / Enter", "open file browser"));
    push_line(r, help_row("h", "go up one dir / back to repos"));
    push_line(r, help_row("Esc", "back / close overlay"));
    push_line(r, blank_line());
    proof {
        assert(lines_view(r@) =~= lines_view(old(r)@) + help_navigation());
    }
}

pub open spec fn help_repo_actions() -> Seq<Seq<SpanView>> {
    seq![
        section_line("repo actions"@),
        row_line("c"@, "clone to local path"@),
        row_line("C"@, "sparse clone (path + dirs)"@),
        row_line("s"@, "star / unstar"@),
        row_line("f"@, "fork"@),
        row_line("o"@, "open in browser"@),
        Seq::<SpanView>::empty(),
    ]
}

fn push_help_repo_actions(r: &mut Vec<Vec<MdSpan>>)
    ensures
        lines_view(final(r)@) == lines_view(old(r)@) + help_repo_actions(),
{
    push_line(r, help_section("repo actions"));
    push_line(r, help_row("c", "clone to local path"));
    push_line(r, help_row("C", "sparse clone (path + dirs)"));
    push_line(r, help_row("s", "star / unstar"));
    push_line(r, help_row("f", "fork"));
    push_line(r, help_row("o", "open in browser"));
    push_line(r, blank_line());
    proof {
        assert(lines_view(r@) =~= lines_view(old(r)@) + help_repo_actions());
    }
}

pub open spec fn help_file_browser() -> Seq<Seq<SpanView>> {
    seq![
        section_line("file browser"@),
        row_line("l / Enter"@, "enter dir / preview file"@),
        row_line("c"@, "save file to local path"@),
        row_line("h"@, "go up one dir"@),
        Seq::<SpanView>::empty(),
    ]
}

fn push_help_file_browser(r: &mut Vec<Vec<MdSpan>>)
    ensures
        lines_view(final(r)@) == lines_view(old(r)@) + help_file_browser(),
{
    push_line(r, help_section("file browser"));
    push_line(r, help_row("l / Enter", "enter dir / preview file"));
    push_line(r, help_row("c", "save file to local path"));
    push_line(r, help_row("h", "go up one dir"));
    push_line(r, blank_line());
    proof {
        assert(lines_view(r@) =~= lines_view(old(r)@) + help_file_browser());
    }
}

pub open spec fn help_profile() -> Seq<Seq<SpanView>> {
    seq![
        section_line("profile view (u on any repo)"@),
        row_line("u"@, "go to that repo's owner"@),
        row_line("o"@, "open profile in browser"@),
        Seq::<SpanView>::empty(),
    ]
}

fn push_help_profile(r: &mut Vec<Vec<MdSpan>>)
    ensures
        lines_view(final(r)@) == lines_view(old(r)@) + help_profile(),
{
    push_line(r, help_section("profile view (u on any repo)"));
    push_line(r, help_row("u", "go to that repo's owner"));
    push_line(r, help_row("o", "open profile in browser"));
    push_line(r, blank_line());
    proof {
        assert(lines_view(r@) =~= lines_view(old(r)@) + help_profile());
    }
}

pub open spec fn help_my_repos() -> Seq<Seq<SpanView>> {
    seq![
        section_line("my repos (tab 2)"@),
        row_line("R"@, "rename repo"@),
        row_line("D"@, "delete repo (confirms y/n)"@),
        row_line("A"@, "archive / unarchive"@),
        Seq::<SpanView>::empty(),
    ]
}

fn push_help_my_repos(r: &mut Vec<Vec<MdSpan>>)
    ensures
        lines_view(final(r)@) == lines_view(old(r)@) + help_my_repos(),
{
    push_line(r, help_section("my repos (tab 2)"));
    push_line(r, help_row("R", "rename repo"));
    push_line(r, help_row("D", "delete repo (confirms y/n)"));
    push_line(r, help_row("A", "archive / unarchive"));
    push_line(r, blank_line());
    proof {
        assert(lines_view(r@) =~= lines_view(old(r)@) + help_my_repos());
    }
}

pub open spec fn help_issues() -> Seq<Seq<SpanView>> {
    seq![
        section_line("issues & PRs (i on any repo)"@),
        row_line("Tab"@, "toggle issues / PRs"@),
        row_line("f"@, "cycle filter open/closed/all"@),
        row_line("n"@, "create new issue"@),
        row_line("x"@, "close selected issue"@),
        row_line("l/Enter"@, "open issue + comments"@),
        Seq::<SpanView>::empty(),
    ]
}

fn push_help_issues(r: &mut Vec<Vec<MdSpan>>)
    ensures
        lines_view(final(r)@) == lines_view(old(r)@) + help_issues(),
{
    push_line(r, help_section("issues & PRs (i on any repo)"));
    push_line(r, help_row("Tab", "toggle issues / PRs"));
    push_line(r, help_row("f", "cycle filter open/closed/all"));
    push_line(r, help_row("n", "create new issue"));
    push_line(r, help_row("x", "close selected issue"));
    push_line(r, help_row("l/Enter", "open issue + comments"));
    push_line(r, blank_line());
    proof {
        assert(lines_view(r@) =~= lines_view(old(r)@) + help_issues());
    }
}

pub open spec fn help_notifications() -> Seq<Seq<SpanView>> {
    seq![
        section_line("notifications (3 from anywhere)"@),
        row_line("r"@, "mark selected as read"@),
        row_line("R"@, "mark all as read"@),
        row_line("f"@, "toggle unread-only filter"@),
        row_line("o"@, "open in browser"@),
        Seq::<SpanView>::empty(),
    ]
}

fn push_help_notifications(r: &mut Vec<Vec<MdSpan>>)
    ensures
        lines_view(final(r)@) == lines_view(old(r)@) + help_notifications(),
{
    push_line(r, help_section("notifications (3 from anywhere)"));
    push_line(r, help_row("r", "mark selected as read"));
    push_line(r, help_row("R", "mark all as read"));
    push_line(r, help_row("f", "toggle unread-only filter"));
    push_line(r, help_row("o", "open in browser"));
    push_line(r, blank_line());
    proof {
        assert(lines_view(r@) =~= lines_view(old(r)@) + help_notifications());
    }
}

pub open spec fn help_general() -> Seq<Seq<SpanView>> {
    seq![
        section_line("general"@),
        row_line("1 / 2 / 3"@, "switch tabs"@),
        row_line("?"@, "toggle this help"@),
        row_line("q"@, "quit"@),
    ]
}

fn push_help_general(r: &mut Vec<Vec<MdSpan>>)
    ensures
        lines_view(final(r)@) == lines_view(old(r)@) + help_general(),
{
    push_line(r, help_section("general"));
    push_line(r, help_row("1 / 2 / 3", "switch tabs"));
    push_line(r, help_row("?", "toggle this help"));
    push_line(r, help_row("q", "quit"));
    proof {
        assert(lines_view(r@) =~= lines_view(old(r)@) + help_general());
    }
}

/// The lines of the help overlay: sections, and keys with their actions.
pub open spec fn help_lines() -> Seq<Seq<SpanView>> {
    help_search() + help_navigation() + help_repo_actions() + help_file_browser() + help_profile() + help_my_repos() + help_issues() + help_notifications() + help_general()
}

/// The lines of the help overlay.
pub fn help_overlay_lines() -> (r: Vec<Vec<MdSpan>>)
    ensures
        lines_view(r@) == help_lines(),
{
    let mut r: Vec<Vec<MdSpan>> = Vec::new();
    proof {
        assert(lines_view(r@) =~= Seq::<Seq<SpanView>>::empty());
    }
    push_help_search(&mut r);
    push_help_navigation(&mut r);
    push_help_repo_actions(&mut r);
    push_help_file_browser(&mut r);
    push_help_profile(&mut r);
    push_help_my_repos(&mut r);
    push_help_issues(&mut r);
    push_help_notifications(&mut r);
    push_help_general(&mut r);
    proof {
        assert(Seq::<Seq<SpanView>>::empty() + help_search() =~= help_search());
    }
    r
}

/// The badge line of a repository row starts with two spaces, shows
/// `[archived] ` right after them exactly when the repository is archived,
/// and ends with `[fork] ` exactly when it is a fork, whatever the other
/// flag; it holds nothing else.
pub proof fn law_badges(r: Repo, starred: bool, stars: Seq<char>)
    ensures
        ({
            let t = owned_row(r, starred, stars)[1][0].text;
            &&& t.len() == 2 + (if r.archived {
                11int
            } else {
                0int
            }) + (if r.fork {
                7int
            } else {
                0int
            })
            &&& t.take(2) == "  "@
            &&& r.archived <==> (t.len() >= 13 && t.subrange(2, 13) == "[archived] "@)
            &&& r.fork <==> (t.len() >= 7 && t.subrange(t.len() - 7, t.len() as int)
                == "[fork] "@)
        }),
{
    reveal_strlit("  ");
    reveal_strlit("[archived] ");
    reveal_strlit("[fork] ");
    let t = owned_row(r, starred, stars)[1][0].text;
    let a = "[archived] "@;
    let f = "[fork] "@;
    assert(t == "  "@ + badges(r));
    assert(t.take(2) =~= "  "@);
    if r.archived {
        assert(t.subrange(2, 13) =~= a);
        if !r.fork {
            assert(t.subrange(t.len() - 7, t.len() as int)[0] == a[4]);
        }
    }
    if r.fork {
        assert(t.subrange(t.len() - 7, t.len() as int) =~= f);
    }
}

} // verus!

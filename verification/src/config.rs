//! Configuration and search history: where they live, what the history
//! file holds, and how a new query enters the history.
use vstd::prelude::*;
use crate::path::{
    chars_of, is_blank, joined, split_on, string_push, trim, trimmed,
    lemma_split_nonempty, split_lines, str_lines, ended_lines, strip_cr, lemma_split_concat,
    lemma_split_single,
};

verus! {

/// The most entries the history file keeps.
pub const HISTORY_MAX: usize = 50;

pub struct Config {
    /// Default local path prefix for cloning repos, e.g. `~/repos`: the
    /// clone of foo/bar then goes to `~/repos/bar`.
    pub default_clone_path: Option<String>,
}

impl Default for Config {
    fn default() -> (r: Self)
        ensures
            r.default_clone_path is None,
    {
        Config { default_clone_path: None }
    }
}

impl Clone for Config {
    fn clone(&self) -> (r: Self)
        ensures
            r == *self,
    {
        Config { default_clone_path: crate::types::clone_opt_string(&self.default_clone_path) }
    }
}

/// Whether two strings hold the same characters.
pub fn eq_str(a: &str, b: &str) -> (r: bool)
    ensures
        r == (a@ == b@),
{
    let x = String::from_str(a);
    let y = String::from_str(b);
    x == y
}

/// The directory under which the configuration lives: `$HOME`, or `.` when
/// it is not set.
pub open spec fn config_base(home: Option<Seq<char>>) -> Seq<char> {
    match home {
        Some(h) => h,
        None => "."@,
    }
}

/// Path of the configuration file.
pub fn config_path(home: Option<&str>) -> (r: String)
    ensures
        r@ == joined(
            config_base(
                match home {
                    Some(h) => Some(h@),
                    None => None,
                },
            ),
            ".config/githut/config.toml"@,
        ),
{
    join_under(home, ".config/githut/config.toml")
}

/// Path of the search history file.
pub fn history_path(home: Option<&str>) -> (r: String)
    ensures
        r@ == joined(
            config_base(
                match home {
                    Some(h) => Some(h@),
                    None => None,
                },
            ),
            ".config/githut/history"@,
        ),
{
    join_under(home, ".config/githut/history")
}

fn join_under(home: Option<&str>, rel: &str) -> (r: String)
    ensures
        r@ == joined(
            config_base(
                match home {
                    Some(h) => Some(h@),
                    None => None,
                },
            ),
            rel@,
        ),
{
    let mut base = match home {
        Some(h) => String::from_str(h),
        None => String::from_str("."),
    };
    let bv = chars_of(base.as_str());
    if !(bv.len() == 0 || bv[bv.len() - 1] == '/') {
        string_push(&mut base, '/');
    }
    base.append(rel);
    base
}

/// What a new configuration file is created with.
pub fn default_config_contents() -> (r: String)
    ensures
        r@ == "# githut config\n# default_clone_path = \"~/repos\"\n"@,
{
    String::from_str("# githut config\n# default_clone_path = \"~/repos\"\n")
}

/// The lines among `lines` that are not blank, in order.
pub open spec fn nonblank_lines(lines: Seq<Seq<char>>) -> Seq<Seq<char>>
    decreases lines.len(),
{
    if lines.len() == 0 {
        Seq::empty()
    } else {
        let prev = nonblank_lines(lines.drop_last());
        if is_blank(lines.last()) {
            prev
        } else {
            prev.push(lines.last())
        }
    }
}

/// The history entries that a history file with this content holds: its
/// lines that are not blank, in order.
pub open spec fn history_entries(content: Seq<char>) -> Seq<Seq<char>> {
    nonblank_lines(str_lines(content))
}

/// `lines` joined with a newline between them.
pub open spec fn join_lines(lines: Seq<Seq<char>>) -> Seq<char>
    decreases lines.len(),
{
    if lines.len() == 0 {
        Seq::empty()
    } else if lines.len() == 1 {
        lines[0]
    } else {
        join_lines(lines.drop_last()) + seq!['\n'] + lines.last()
    }
}

/// What the history file is written with: the first `HISTORY_MAX` entries,
/// one per line.
pub open spec fn history_file_content(history: Seq<Seq<char>>) -> Seq<char> {
    join_lines(
        history.take(
            if history.len() <= HISTORY_MAX {
                history.len() as int
            } else {
                HISTORY_MAX as int
            },
        ),
    )
}

/// `h` without any entry equal to `q`.
pub open spec fn without(h: Seq<Seq<char>>, q: Seq<char>) -> Seq<Seq<char>>
    decreases h.len(),
{
    if h.len() == 0 {
        Seq::empty()
    } else if h.last() == q {
        without(h.drop_last(), q)
    } else {
        without(h.drop_last(), q).push(h.last())
    }
}

/// The history after searching for `q`: a blank query changes nothing;
/// otherwise `q` moves to the front, any older copy of it is dropped, and
/// the list is cut to `HISTORY_MAX` entries.
pub open spec fn pushed_history(h: Seq<Seq<char>>, q: Seq<char>) -> Seq<Seq<char>> {
    if is_blank(q) {
        h
    } else {
        let all = seq![q] + without(h, q);
        all.take(
            if all.len() <= HISTORY_MAX {
                all.len() as int
            } else {
                HISTORY_MAX as int
            },
        )
    }
}

proof fn lemma_deep_strings_push(v: Seq<String>, s: String)
    ensures
        v.push(s).map_values(|x: String| x@) == v.map_values(|x: String| x@).push(s@),
{
    assert(v.push(s).map_values(|x: String| x@) =~= v.map_values(|x: String| x@).push(s@));
}

/// The views of a list of strings.
pub open spec fn views(v: Seq<String>) -> Seq<Seq<char>> {
    v.map_values(|x: String| x@)
}

/// The entries of a history file's content.
pub fn parse_history(content: &str) -> (r: Vec<String>)
    ensures
        views(r@) == history_entries(content@),
{
    let lines = split_lines(content);
    let ghost ls = views(lines@);
    let mut out: Vec<String> = Vec::new();
    let mut i: usize = 0;
    proof {
        assert(ls.take(0) =~= Seq::<Seq<char>>::empty());
        assert(views(out@) =~= Seq::<Seq<char>>::empty());
    }
    while i < lines.len()
        invariant
            ls == views(lines@),
            ls == str_lines(content@),
            i <= lines.len(),
            views(out@) == nonblank_lines(ls.take(i as int)),
        decreases lines.len() - i,
    {
        proof {
            assert(ls.take(i + 1).drop_last() =~= ls.take(i as int));
            assert(ls.take(i + 1).last() == lines@[i as int]@);
        }
        let t = trim(lines[i].as_str());
        if t.as_str().unicode_len() > 0 {
            let ghost before = out@;
            out.push(lines[i].clone());
            proof {
                lemma_deep_strings_push(before, lines@[i as int]);
            }
        }
        i = i + 1;
    }
    proof {
        assert(ls.take(lines.len() as int) =~= ls);
    }
    out
}

/// The content the history file is written with.
pub fn history_content(history: &Vec<String>) -> (r: String)
    ensures
        r@ == history_file_content(views(history@)),
{
    let n = if history.len() <= HISTORY_MAX {
        history.len()
    } else {
        HISTORY_MAX
    };
    let ghost h = views(history@);
    let mut out = String::new();
    let mut i: usize = 0;
    proof {
        assert(h.take(0) =~= Seq::<Seq<char>>::empty());
    }
    while i < n
        invariant
            n <= history.len(),
            h == views(history@),
            n == (if history.len() <= HISTORY_MAX {
                history.len()
            } else {
                HISTORY_MAX
            }),
            i <= n,
            out@ == join_lines(h.take(i as int)),
        decreases n - i,
    {
        if i > 0 {
            string_push(&mut out, '\n');
        }
        out.append(history[i].as_str());
        proof {
            let tk = h.take(i + 1);
            assert(tk.drop_last() =~= h.take(i as int));
            assert(tk.last() == history@[i as int]@);
            if i == 0 {
                assert(h.take(0) =~= Seq::<Seq<char>>::empty());
                assert(out@ =~= join_lines(tk));
            } else {
                assert(out@ =~= join_lines(tk));
            }
        }
        i = i + 1;
    }
    out
}

/// Records `query` as the most recent search in `history`.
pub fn push_history(history: &mut Vec<String>, query: &str)
    ensures
        views(final(history)@) == pushed_history(views(old(history)@), query@),
{
    let t = trim(query);
    if t.as_str().unicode_len() == 0 {
        return;
    }
    let q = String::from_str(query);
    assert(!is_blank(query@));
    let ghost h = views(history@);
    let mut rest: Vec<String> = Vec::new();
    let mut i: usize = 0;
    proof {
        assert(views(rest@) =~= Seq::<Seq<char>>::empty());
        assert(h.take(0) =~= Seq::<Seq<char>>::empty());
    }
    while i < history.len()
        invariant
            h == views(history@),
            i <= history.len(),
            q@ == query@,
            views(rest@) == without(h.take(i as int), query@),
        decreases history.len() - i,
    {
        proof {
            let tk = h.take(i + 1);
            assert(tk.drop_last() =~= h.take(i as int));
            assert(tk.last() == history@[i as int]@);
        }
        if !(history[i] == q) {
            let ghost before = rest@;
            rest.push(history[i].clone());
            proof {
                lemma_deep_strings_push(before, history@[i as int]);
            }
        }
        i = i + 1;
    }
    proof {
        assert(h.take(history.len() as int) =~= h);
    }
    let ghost all = seq![query@] + views(rest@);
    let mut out: Vec<String> = Vec::new();
    out.push(q);
    proof {
        assert(views(out@) =~= all.take(1));
    }
    let mut j: usize = 0;
    while j < rest.len() && out.len() < HISTORY_MAX
        invariant
            all == seq![query@] + views(rest@),
            j <= rest.len(),
            out.len() == j + 1,
            j + 1 <= HISTORY_MAX,
            views(out@) == all.take(j + 1),
        decreases rest.len() - j,
    {
        let ghost before = out@;
        out.push(rest[j].clone());
        proof {
            lemma_deep_strings_push(before, rest@[j as int]);
            assert(all.take(j + 2) =~= all.take(j + 1).push(rest@[j as int]@));
        }
        j = j + 1;
    }
    proof {
        if j == rest.len() {
            assert(all.take(j + 1) =~= all);
        }
        assert(views(out@) == pushed_history(h, query@));
    }
    *history = out;
}

// ───────────────────────── laws ─────────────────────────

proof fn lemma_without_concat(a: Seq<Seq<char>>, b: Seq<Seq<char>>, q: Seq<char>)
    ensures
        without(a + b, q) == without(a, q) + without(b, q),
    decreases b.len(),
{
    if b.len() == 0 {
        assert(a + b =~= a);
        assert(without(a, q) + without(b, q) =~= without(a, q));
    } else {
        lemma_without_concat(a, b.drop_last(), q);
        assert((a + b).drop_last() =~= a + b.drop_last());
        assert((a + b).last() == b.last());
        if b.last() == q {
        } else {
            assert(without(a, q) + without(b, q) =~= (without(a, q) + without(b.drop_last(), q)).push(
                b.last(),
            ));
        }
    }
}

proof fn lemma_without_absent(s: Seq<Seq<char>>, q: Seq<char>)
    requires
        forall|i: int| 0 <= i < s.len() ==> s[i] != q,
    ensures
        without(s, q) == s,
    decreases s.len(),
{
    if s.len() > 0 {
        lemma_without_absent(s.drop_last(), q);
        assert(s.drop_last().push(s.last()) =~= s);
    }
}

proof fn lemma_without_excludes(s: Seq<Seq<char>>, q: Seq<char>)
    ensures
        forall|i: int| 0 <= i < without(s, q).len() ==> without(s, q)[i] != q,
        without(s, q).len() <= s.len(),
    decreases s.len(),
{
    if s.len() > 0 {
        lemma_without_excludes(s.drop_last(), q);
    }
}

/// Searching for a query that is not blank puts it first in the history,
/// keeps no other copy of it, and leaves at most `HISTORY_MAX` entries; a
/// blank query leaves the history as it was.
pub proof fn law_push_history_front(h: Seq<Seq<char>>, q: Seq<char>)
    ensures
        is_blank(q) ==> pushed_history(h, q) == h,
        !is_blank(q) ==> {
            &&& 1 <= pushed_history(h, q).len() <= HISTORY_MAX
            &&& pushed_history(h, q)[0] == q
            &&& forall|i: int|
                1 <= i < pushed_history(h, q).len() ==> #[trigger] pushed_history(h, q)[i] != q
        },
{
    if !is_blank(q) {
        lemma_without_excludes(h, q);
        let all = seq![q] + without(h, q);
        assert forall|i: int| 1 <= i < pushed_history(h, q).len() implies #[trigger] pushed_history(
            h,
            q,
        )[i] != q by {
            assert(pushed_history(h, q)[i] == all[i]);
            assert(all[i] == without(h, q)[i - 1]);
        }
    }
}

/// Searching for the same query twice leaves the history as searching for
/// it once does.
pub proof fn law_push_history_twice(h: Seq<Seq<char>>, q: Seq<char>)
    ensures
        pushed_history(pushed_history(h, q), q) == pushed_history(h, q),
{
    if !is_blank(q) {
        let p = pushed_history(h, q);
        law_push_history_front(h, q);
        let rest = p.drop_first();
        assert(p =~= seq![q] + rest);
        assert forall|i: int| 0 <= i < rest.len() implies rest[i] != q by {
            assert(rest[i] == p[i + 1]);
        }
        lemma_without_absent(rest, q);
        lemma_without_concat(seq![q], rest, q);
        assert(seq![q].drop_last() =~= Seq::<Seq<char>>::empty());
        assert(seq![q].last() == q);
        assert(without(Seq::<Seq<char>>::empty(), q) =~= Seq::<Seq<char>>::empty());
        assert(without(seq![q], q) == without(seq![q].drop_last(), q));
        assert(without(seq![q], q) =~= Seq::<Seq<char>>::empty());
        assert(without(p, q) =~= rest);
        assert((seq![q] + rest).take((seq![q] + rest).len() as int) =~= p);
    }
}

proof fn lemma_split_join(lines: Seq<Seq<char>>)
    requires
        lines.len() >= 1,
        forall|i: int| 0 <= i < lines.len() ==> !(#[trigger] lines[i]).contains('\n'),
    ensures
        split_on(join_lines(lines), '\n') == lines,
    decreases lines.len(),
{
    if lines.len() == 1 {
        lemma_split_single(lines[0], '\n');
        assert(seq![lines[0]] =~= lines);
    } else {
        let init = lines.drop_last();
        assert forall|i: int| 0 <= i < init.len() implies !(#[trigger] init[i]).contains('\n') by {
            assert(init[i] == lines[i]);
        }
        lemma_split_join(init);
        assert(!lines.last().contains('\n')) by {
            assert(lines[lines.len() - 1] == lines.last());
        }
        lemma_split_single(lines.last(), '\n');
        lemma_split_concat(join_lines(init), lines.last(), '\n');
        assert(init + seq![lines.last()] =~= lines);
    }
}

proof fn lemma_ended_plain(lines: Seq<Seq<char>>)
    requires
        forall|i: int| 0 <= i < lines.len() ==> #[trigger] strip_cr(lines[i]) == lines[i],
    ensures
        ended_lines(lines) == lines,
    decreases lines.len(),
{
    if lines.len() > 0 {
        let init = lines.drop_last();
        assert forall|i: int| 0 <= i < init.len() implies #[trigger] strip_cr(init[i]) == init[i] by {
            assert(init[i] == lines[i]);
        }
        lemma_ended_plain(init);
        assert(strip_cr(lines[lines.len() - 1]) == lines[lines.len() - 1]);
        assert(init.push(lines.last()) =~= lines);
    }
}

proof fn lemma_nonblank_all(lines: Seq<Seq<char>>)
    requires
        forall|i: int| 0 <= i < lines.len() ==> !is_blank(#[trigger] lines[i]),
    ensures
        nonblank_lines(lines) == lines,
    decreases lines.len(),
{
    if lines.len() > 0 {
        let init = lines.drop_last();
        assert forall|i: int| 0 <= i < init.len() implies !is_blank(#[trigger] init[i]) by {
            assert(init[i] == lines[i]);
        }
        lemma_nonblank_all(init);
        assert(!is_blank(lines[lines.len() - 1]));
        assert(init.push(lines.last()) =~= lines);
    }
}

/// What the history file is written with reads back as the history it was
/// written from, cut to `HISTORY_MAX` entries, when the kept entries are
/// not blank, hold no newline, and (but for the last) do not end in a
/// carriage return.
pub proof fn law_history_roundtrip(h: Seq<Seq<char>>)
    requires
        forall|i: int|
            0 <= i < h.len() && i < HISTORY_MAX ==> {
                &&& !is_blank(#[trigger] h[i])
                &&& !h[i].contains('\n')
                &&& (i + 1 < h.len() && i + 1 < HISTORY_MAX) ==> strip_cr(h[i]) == h[i]
            },
    ensures
        history_entries(history_file_content(h)) == h.take(
            if h.len() <= HISTORY_MAX {
                h.len() as int
            } else {
                HISTORY_MAX as int
            },
        ),
{
    let k = if h.len() <= HISTORY_MAX {
        h.len() as int
    } else {
        HISTORY_MAX as int
    };
    let kept = h.take(k);
    let content = history_file_content(h);
    assert(content == join_lines(kept));
    if kept.len() == 0 {
        assert(split_on(Seq::<char>::empty(), '\n') =~= seq![Seq::<char>::empty()]);
        assert(str_lines(content) =~= Seq::<Seq<char>>::empty());
        assert(kept =~= Seq::<Seq<char>>::empty());
    } else {
        assert forall|i: int| 0 <= i < kept.len() implies !(#[trigger] kept[i]).contains('\n') by {
            assert(kept[i] == h[i]);
        }
        lemma_split_join(kept);
        let init = kept.drop_last();
        assert forall|i: int| 0 <= i < init.len() implies #[trigger] strip_cr(init[i]) == init[i] by {
            assert(init[i] == h[i]);
        }
        lemma_ended_plain(init);
        assert(!is_blank(kept.last())) by {
            assert(kept.last() == h[kept.len() - 1]);
        }
        assert(kept.last().len() != 0) by {
            if kept.last().len() == 0 {
                assert(kept.last() =~= Seq::<char>::empty());
                assert(trimmed(Seq::<char>::empty()) =~= Seq::<char>::empty());
            }
        }
        assert(str_lines(content) =~= init.push(kept.last()));
        assert(init.push(kept.last()) =~= kept);
        assert forall|i: int| 0 <= i < kept.len() implies !is_blank(#[trigger] kept[i]) by {
            assert(kept[i] == h[i]);
        }
        lemma_nonblank_all(kept);
    }
}

} // verus!

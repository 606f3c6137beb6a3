//! What a sparse clone writes and fetches: the sparse-checkout patterns and
//! the references of the branch.
use vstd::prelude::*;
use crate::config::views;
use crate::path::{trim_char, trimmed_of};
use crate::events::concat;

verus! {

/// One pattern line per directory, without its surrounding slashes.
pub open spec fn pattern_lines(dirs: Seq<Seq<char>>) -> Seq<char>
    decreases dirs.len(),
{
    if dirs.len() == 0 {
        Seq::empty()
    } else {
        pattern_lines(dirs.drop_last()) + trimmed_of(dirs.last(), '/') + seq!['\n']
    }
}

/// The sparse-checkout file: everything (`/*`) when no directory is given,
/// otherwise one line per directory.
pub open spec fn sparse_patterns_text(dirs: Seq<Seq<char>>) -> Seq<char> {
    if dirs.len() == 0 {
        "/*\n"@
    } else {
        pattern_lines(dirs)
    }
}

/// The content of the sparse-checkout file for `dirs`.
pub fn sparse_patterns(dirs: &Vec<String>) -> (r: String)
    ensures
        r@ == sparse_patterns_text(views(dirs@)),
{
    if dirs.len() == 0 {
        return String::from_str("/*\n");
    }
    let ghost d = views(dirs@);
    let mut out = String::new();
    let mut i: usize = 0;
    proof {
        assert(d.take(0) =~= Seq::<Seq<char>>::empty());
    }
    while i < dirs.len()
        invariant
            d == views(dirs@),
            i <= dirs.len(),
            out@ == pattern_lines(d.take(i as int)),
        decreases dirs.len() - i,
    {
        let t = trim_char(dirs[i].as_str(), '/');
        out.append(t.as_str());
        crate::path::string_push(&mut out, '\n');
        proof {
            let tk = d.take(i + 1);
            assert(tk.drop_last() =~= d.take(i as int));
            assert(tk.last() == dirs@[i as int]@);
        }
        i = i + 1;
    }
    proof {
        assert(d.take(dirs.len() as int) =~= d);
    }
    out
}

/// The refspec that fetches `branch` into the `origin` remote-tracking ref.
pub fn fetch_refspec(branch: &str) -> (r: String)
    ensures
        r@ == "refs/heads/"@ + branch@ + ":refs/remotes/origin/"@ + branch@,
{
    let a = concat("refs/heads/", branch);
    let b = concat(a.as_str(), ":refs/remotes/origin/");
    concat(b.as_str(), branch)
}

/// The remote-tracking ref of `branch`.
pub fn remote_branch_ref(branch: &str) -> (r: String)
    ensures
        r@ == "refs/remotes/origin/"@ + branch@,
{
    concat("refs/remotes/origin/", branch)
}

/// The local ref of `branch`, which HEAD is set to.
pub fn head_ref(branch: &str) -> (r: String)
    ensures
        r@ == "refs/heads/"@ + branch@,
{
    concat("refs/heads/", branch)
}

} // verus!

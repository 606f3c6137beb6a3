//! Trimming, `~` expansion, joining onto a working directory and lexical
//! normalisation of `/`-separated paths.
use vstd::prelude::*;

verus! {

/// `String::push`: appends `c`.
#[verifier::external_body]
pub(crate) fn string_push(s: &mut String, c: char)
    ensures
        final(s)@ == old(s)@.push(c),
{
    s.push(c)
}

/// The characters of a string slice, in order.
pub fn chars_of(s: &str) -> (v: Vec<char>)
    ensures
        v@ == s@,
{
    let n = s.unicode_len();
    let mut v: Vec<char> = Vec::new();
    let mut i: usize = 0;
    while i < n
        invariant
            n == s@.len(),
            i <= n,
            v@ == s@.take(i as int),
        decreases n - i,
    {
        let c = s.get_char(i);
        v.push(c);
        proof {
            assert(s@.take(i + 1) =~= s@.take(i as int).push(c));
        }
        i = i + 1;
    }
    proof {
        assert(s@.take(n as int) =~= s@);
    }
    v
}

/// A string made of the characters `v[from..to]`.
pub fn string_of(v: &Vec<char>, from: usize, to: usize) -> (s: String)
    requires
        from <= to <= v.len(),
    ensures
        s@ == v@.subrange(from as int, to as int),
{
    let mut s = String::new();
    let mut i = from;
    while i < to
        invariant
            from <= i <= to <= v.len(),
            s@ == v@.subrange(from as int, i as int),
        decreases to - i,
    {
        string_push(&mut s, v[i]);
        proof {
            assert(v@.subrange(from as int, i + 1) =~= v@.subrange(from as int, i as int).push(
                v@[i as int],
            ));
        }
        i = i + 1;
    }
    s
}

/// Unicode `White_Space`, the property that `char::is_whitespace` tests.
pub open spec fn is_whitespace(c: char) -> bool {
    let v = c as u32;
    ||| 0x09 <= v <= 0x0D
    ||| v == 0x20
    ||| v == 0x85
    ||| v == 0xA0
    ||| v == 0x1680
    ||| 0x2000 <= v <= 0x200A
    ||| v == 0x2028
    ||| v == 0x2029
    ||| v == 0x202F
    ||| v == 0x205F
    ||| v == 0x3000
}

pub fn char_is_whitespace(c: char) -> (b: bool)
    ensures
        b == is_whitespace(c),
{
    let v = c as u32;
    (0x09 <= v && v <= 0x0D) || v == 0x20 || v == 0x85 || v == 0xA0 || v == 0x1680 || (0x2000 <= v
        && v <= 0x200A) || v == 0x2028 || v == 0x2029 || v == 0x202F || v == 0x205F || v == 0x3000
}

/// `s` without its leading whitespace.
pub open spec fn trim_start(s: Seq<char>) -> Seq<char>
    decreases s.len(),
{
    if s.len() > 0 && is_whitespace(s[0]) {
        trim_start(s.drop_first())
    } else {
        s
    }
}

/// `s` without its trailing whitespace.
pub open spec fn trim_end(s: Seq<char>) -> Seq<char>
    decreases s.len(),
{
    if s.len() > 0 && is_whitespace(s.last()) {
        trim_end(s.drop_last())
    } else {
        s
    }
}

/// `s` without leading and trailing whitespace, as `str::trim` gives it.
pub open spec fn trimmed(s: Seq<char>) -> Seq<char> {
    trim_end(trim_start(s))
}

/// Whether `s` is empty once trimmed.
pub open spec fn is_blank(s: Seq<char>) -> bool {
    trimmed(s).len() == 0
}

/// Removes leading and trailing whitespace.
pub fn trim(s: &str) -> (r: String)
    ensures
        r@ == trimmed(s@),
{
    let v = chars_of(s);
    let n = v.len();
    let mut i: usize = 0;
    proof {
        assert(s@.skip(0) =~= s@);
    }
    while i < n && char_is_whitespace(v[i])
        invariant
            n == v@.len(),
            v@ == s@,
            i <= n,
            trim_start(s@) == trim_start(s@.skip(i as int)),
        decreases n - i,
    {
        proof {
            assert(s@.skip(i as int).drop_first() =~= s@.skip(i + 1));
        }
        i = i + 1;
    }
    proof {
        if i == n {
            assert(s@.skip(i as int).len() == 0);
        }
    }
    let mut j: usize = n;
    while j > i && char_is_whitespace(v[j - 1])
        invariant
            n == v@.len(),
            v@ == s@,
            i <= j <= n,
            trim_start(s@) == s@.subrange(i as int, n as int),
            trim_end(s@.subrange(i as int, n as int)) == trim_end(s@.subrange(i as int, j as int)),
        decreases j,
    {
        proof {
            assert(s@.subrange(i as int, j as int).drop_last() =~= s@.subrange(i as int, j - 1));
        }
        j = j - 1;
    }
    string_of(&v, i, j)
}

/// Splits `p` at every `sep`, keeping empty pieces (like `str::split`).
pub open spec fn split_on(p: Seq<char>, sep: char) -> Seq<Seq<char>>
    decreases p.len(),
{
    if p.len() == 0 {
        seq![Seq::<char>::empty()]
    } else {
        let prev = split_on(p.drop_last(), sep);
        if p.last() == sep {
            prev.push(Seq::<char>::empty())
        } else {
            prev.update(prev.len() - 1, prev.last().push(p.last()))
        }
    }
}

pub proof fn lemma_split_nonempty(p: Seq<char>, sep: char)
    ensures
        split_on(p, sep).len() >= 1,
    decreases p.len(),
{
    if p.len() > 0 {
        lemma_split_nonempty(p.drop_last(), sep);
    }
}

/// `line` without one trailing carriage return.
pub open spec fn strip_cr(line: Seq<char>) -> Seq<char> {
    if line.len() > 0 && line.last() == '\r' {
        line.drop_last()
    } else {
        line
    }
}

/// Pieces that a newline ended, each without one trailing carriage return.
pub open spec fn ended_lines(pieces: Seq<Seq<char>>) -> Seq<Seq<char>>
    decreases pieces.len(),
{
    if pieces.len() == 0 {
        Seq::empty()
    } else {
        ended_lines(pieces.drop_last()).push(strip_cr(pieces.last()))
    }
}

/// The lines of `t` as `str::lines` yields them: the pieces between
/// newlines, where a piece that a newline ends loses one trailing carriage
/// return, and a last piece that is empty is no line.
pub open spec fn str_lines(t: Seq<char>) -> Seq<Seq<char>> {
    let pieces = split_on(t, '\n');
    let ended = ended_lines(pieces.drop_last());
    if pieces.last().len() == 0 {
        ended
    } else {
        ended.push(pieces.last())
    }
}

/// The lines of `t`, as `str::lines` yields them.
pub fn split_lines(t: &str) -> (r: Vec<String>)
    ensures
        r@.map_values(|x: String| x@) == str_lines(t@),
{
    let v = chars_of(t);
    let n = v.len();
    let mut out: Vec<String> = Vec::new();
    let mut cur: Vec<char> = Vec::new();
    let mut i: usize = 0;
    proof {
        assert(v@.take(0) =~= Seq::<char>::empty());
        assert(split_on(Seq::<char>::empty(), '\n').drop_last() =~= Seq::<Seq<char>>::empty());
        assert(out@.map_values(|x: String| x@) =~= Seq::<Seq<char>>::empty());
    }
    while i < n
        invariant
            n == v@.len(),
            v@ == t@,
            i <= n,
            out@.map_values(|x: String| x@) == ended_lines(
                split_on(v@.take(i as int), '\n').drop_last(),
            ),
            cur@ == split_on(v@.take(i as int), '\n').last(),
        decreases n - i,
    {
        let ghost p = v@.take(i as int);
        let ghost p1 = v@.take(i + 1);
        proof {
            assert(p1.drop_last() =~= p);
            assert(p1.last() == v@[i as int]);
            lemma_split_nonempty(p, '\n');
        }
        if v[i] == '\n' {
            let mut end = cur.len();
            if end > 0 && cur[end - 1] == '\r' {
                end = end - 1;
            }
            let s = string_of(&cur, 0, end);
            let ghost before = out@;
            out.push(s);
            proof {
                let sp = split_on(p, '\n');
                assert(s@ =~= strip_cr(cur@));
                assert(split_on(p1, '\n') == sp.push(Seq::<char>::empty()));
                assert(split_on(p1, '\n').drop_last() =~= sp);
                assert(sp =~= sp.drop_last().push(sp.last()));
                assert(out@.map_values(|x: String| x@) =~= before.map_values(|x: String| x@).push(
                    s@,
                ));
            }
            cur = Vec::new();
            proof {
                assert(cur@ =~= Seq::<char>::empty());
            }
        } else {
            let c = v[i];
            cur.push(c);
            proof {
                let sp = split_on(p, '\n');
                assert(split_on(p1, '\n') == sp.update(sp.len() - 1, sp.last().push(c)));
                assert(split_on(p1, '\n').drop_last() =~= sp.drop_last());
            }
        }
        i = i + 1;
    }
    proof {
        assert(v@.take(n as int) =~= v@);
    }
    if cur.len() > 0 {
        let s = string_of(&cur, 0, cur.len());
        let ghost before = out@;
        out.push(s);
        proof {
            assert(s@ =~= cur@);
            assert(out@.map_values(|x: String| x@) =~= before.map_values(|x: String| x@).push(
                s@,
            ));
        }
    }
    out
}

/// Splitting at a separator that joins two texts splits each of them.
pub proof fn lemma_split_concat(x: Seq<char>, y: Seq<char>, sep: char)
    ensures
        split_on(x + seq![sep] + y, sep) == split_on(x, sep) + split_on(y, sep),
    decreases y.len(),
{
    let z = x + seq![sep] + y;
    if y.len() == 0 {
        assert(z =~= x.push(sep));
        assert(z.drop_last() =~= x);
        assert(split_on(x, sep) + split_on(y, sep) =~= split_on(x, sep).push(Seq::<char>::empty()));
    } else {
        lemma_split_concat(x, y.drop_last(), sep);
        lemma_split_nonempty(y.drop_last(), sep);
        assert(z.drop_last() =~= x + seq![sep] + y.drop_last());
        assert(z.last() == y.last());
        let a = split_on(x, sep);
        let b = split_on(y.drop_last(), sep);
        if y.last() == sep {
            assert(split_on(y, sep) == b.push(Seq::<char>::empty()));
            assert((a + b).push(Seq::<char>::empty()) =~= a + b.push(Seq::<char>::empty()));
        } else {
            assert(split_on(y, sep) == b.update(b.len() - 1, b.last().push(y.last())));
            assert((a + b).update((a + b).len() - 1, (a + b).last().push(y.last())) =~= a + b.update(
                b.len() - 1,
                b.last().push(y.last()),
            ));
        }
    }
}

/// A text without the separator is one piece.
pub proof fn lemma_split_single(s: Seq<char>, sep: char)
    requires
        !s.contains(sep),
    ensures
        split_on(s, sep) == seq![s],
    decreases s.len(),
{
    if s.len() > 0 {
        assert(!s.drop_last().contains(sep)) by {
            if s.drop_last().contains(sep) {
                let i = choose|i: int| 0 <= i < s.drop_last().len() && s.drop_last()[i] == sep;
                assert(s[i] == sep);
            }
        }
        lemma_split_single(s.drop_last(), sep);
        assert(s.last() != sep) by {
            assert(s[s.len() - 1] == s.last());
        }
        assert(s.drop_last().push(s.last()) =~= s);
        assert(seq![s.drop_last()].update(0, s.drop_last().push(s.last())) =~= seq![s]);
    } else {
        assert(s =~= Seq::<char>::empty());
    }
}


/// A piece of a split holds no separator.
pub proof fn lemma_split_no_sep(p: Seq<char>, sep: char)
    ensures
        forall|i: int|
            0 <= i < split_on(p, sep).len() ==> !(#[trigger] split_on(p, sep)[i]).contains(sep),
    decreases p.len(),
{
    if p.len() > 0 {
        lemma_split_no_sep(p.drop_last(), sep);
        lemma_split_nonempty(p.drop_last(), sep);
        let prev = split_on(p.drop_last(), sep);
        if p.last() != sep {
            let l = prev.last().push(p.last());
            assert(!l.contains(sep)) by {
                if l.contains(sep) {
                    let k = choose|k: int| 0 <= k < l.len() && l[k] == sep;
                    if k < prev.last().len() {
                        assert(prev[prev.len() - 1][k] == sep);
                        assert(prev[prev.len() - 1].contains(sep));
                    }
                }
            }
        }
    }
}

/// One step of lexical normalisation: `.` and empty pieces are dropped,
/// `..` drops the last kept name (if any), anything else is kept.
pub open spec fn norm_step(names: Seq<Seq<char>>, seg: Seq<char>) -> Seq<Seq<char>> {
    if seg.len() == 0 || seg == seq!['.'] {
        names
    } else if seg == seq!['.', '.'] {
        if names.len() > 0 {
            names.drop_last()
        } else {
            names
        }
    } else {
        names.push(seg)
    }
}

/// The names that survive normalisation of the pieces `segs`, in order.
pub open spec fn norm_names(segs: Seq<Seq<char>>) -> Seq<Seq<char>>
    decreases segs.len(),
{
    if segs.len() == 0 {
        Seq::empty()
    } else {
        norm_step(norm_names(segs.drop_last()), segs.last())
    }
}

/// `names` joined with `/` between them.
pub open spec fn join_slash(names: Seq<Seq<char>>) -> Seq<char>
    decreases names.len(),
{
    if names.len() == 0 {
        Seq::empty()
    } else if names.len() == 1 {
        names[0]
    } else {
        join_slash(names.drop_last()) + seq!['/'] + names.last()
    }
}

/// `p` with `.` and `..` resolved without looking at the file system: a
/// leading `/` stays, `.` and repeated separators vanish, `..` removes the
/// name before it (and nothing at the root or at the start).
pub open spec fn normalized(p: Seq<char>) -> Seq<char> {
    let names = norm_names(split_on(p, '/'));
    if p.len() > 0 && p[0] == '/' {
        seq!['/'] + join_slash(names)
    } else {
        join_slash(names)
    }
}

/// `p` with a leading `~` replaced by `home`.
pub open spec fn home_expanded(p: Seq<char>, home: Seq<char>) -> Seq<char> {
    if p == seq!['~'] {
        home
    } else if p.len() >= 2 && p[0] == '~' && p[1] == '/' {
        home + seq!['/'] + p.skip(2)
    } else {
        p
    }
}

/// `rel` put under `dir`, with one `/` between them unless `dir` is empty or ends in one.
pub open spec fn joined(dir: Seq<char>, rel: Seq<char>) -> Seq<char> {
    if dir.len() == 0 || dir.last() == '/' {
        dir + rel
    } else {
        dir + seq!['/'] + rel
    }
}

/// The path that `~`, `./` and `../` in `s` lead to, given the home and
/// working directories: empty stays empty, an absolute path stays as it is,
/// a relative one is put under `cwd` and normalised.
pub open spec fn expanded_path(s: Seq<char>, home: Seq<char>, cwd: Seq<char>) -> Seq<char> {
    if s.len() == 0 {
        s
    } else {
        let e = home_expanded(s, home);
        if e.len() > 0 && e[0] == '/' {
            e
        } else {
            normalized(joined(cwd, e))
        }
    }
}

fn is_dot(seg: &Vec<char>) -> (b: bool)
    ensures
        b == (seg@ == seq!['.']),
{
    let r = seg.len() == 1 && seg[0] == '.';
    proof {
        if seg@ == seq!['.'] {
            assert(seg@[0] == '.');
        }
        if r {
            assert(seg@ =~= seq!['.']);
        }
    }
    r
}

/// A vector of characters views deeply as its characters.
proof fn lemma_deep_chars(v: Vec<char>)
    ensures
        v.deep_view() == v@,
{
    assert(v.deep_view() =~= v@);
}

fn is_dot_dot(seg: &Vec<char>) -> (b: bool)
    ensures
        b == (seg@ == seq!['.', '.']),
{
    let r = seg.len() == 2 && seg[0] == '.' && seg[1] == '.';
    proof {
        if seg@ == seq!['.', '.'] {
            assert(seg@[0] == '.' && seg@[1] == '.');
        }
        if r {
            assert(seg@ =~= seq!['.', '.']);
        }
    }
    r
}

fn apply_norm_step(names: &mut Vec<Vec<char>>, seg: Vec<char>)
    ensures
        final(names).deep_view() == norm_step(old(names).deep_view(), seg@),
{
    if seg.len() == 0 || is_dot(&seg) {
        proof {
            if seg.len() == 0 {
                assert(seg@ =~= Seq::<char>::empty());
            }
        }
    } else if is_dot_dot(&seg) {
        if names.len() > 0 {
            let ghost before = names.deep_view();
            names.pop();
            proof {
                assert(names.deep_view() =~= before.drop_last());
            }
        }
    } else {
        let ghost before = names.deep_view();
        proof {
            lemma_deep_chars(seg);
        }
        names.push(seg);
        proof {
            assert(names.deep_view() =~= before.push(seg@));
        }
    }
}

/// Normalize a path (resolve `.` and `..`) without requiring it to exist.
pub fn normalize_path(path: &str) -> (r: String)
    ensures
        r@ == normalized(path@),
{
    let v = chars_of(path);
    let n = v.len();
    let mut names: Vec<Vec<char>> = Vec::new();
    let mut cur: Vec<char> = Vec::new();
    let mut i: usize = 0;
    proof {
        assert(v@.take(0) =~= Seq::<char>::empty());
        assert(split_on(Seq::<char>::empty(), '/').drop_last() =~= Seq::<Seq<char>>::empty());
        assert(names.deep_view() =~= Seq::<Seq<char>>::empty());
    }
    while i < n
        invariant
            n == v@.len(),
            v@ == path@,
            i <= n,
            names.deep_view() == norm_names(split_on(v@.take(i as int), '/').drop_last()),
            cur@ == split_on(v@.take(i as int), '/').last(),
        decreases n - i,
    {
        let ghost p = v@.take(i as int);
        let ghost p1 = v@.take(i + 1);
        proof {
            assert(p1.drop_last() =~= p);
            assert(p1.last() == v@[i as int]);
            lemma_split_nonempty(p, '/');
        }
        if v[i] == '/' {
            let seg = cur;
            cur = Vec::new();
            apply_norm_step(&mut names, seg);
            proof {
                let sp = split_on(p, '/');
                assert(split_on(p1, '/') == sp.push(Seq::<char>::empty()));
                assert(split_on(p1, '/').drop_last() =~= sp);
                assert(sp =~= sp.drop_last().push(sp.last()));
                assert(cur@ =~= Seq::<char>::empty());
            }
        } else {
            let c = v[i];
            cur.push(c);
            proof {
                let sp = split_on(p, '/');
                assert(split_on(p1, '/') == sp.update(sp.len() - 1, sp.last().push(c)));
                assert(split_on(p1, '/').drop_last() =~= sp.drop_last());
            }
        }
        i = i + 1;
    }
    let ghost segs = split_on(v@, '/');
    proof {
        assert(v@.take(n as int) =~= v@);
        lemma_split_nonempty(v@, '/');
        assert(segs =~= segs.drop_last().push(segs.last()));
    }
    apply_norm_step(&mut names, cur);
    // names now holds norm_names(segs)
    let mut out = String::new();
    let rooted = n > 0 && v[0] == '/';
    if rooted {
        string_push(&mut out, '/');
    }
    let ghost prefix: Seq<char> = if rooted {
        seq!['/']
    } else {
        Seq::<char>::empty()
    };
    proof {
        assert(out@ =~= prefix);
    }
    let m = names.len();
    let mut j: usize = 0;
    while j < m
        invariant
            m == names.len(),
            names.deep_view() == norm_names(segs),
            j <= m,
            out@ == prefix + join_slash(names.deep_view().take(j as int)),
        decreases m - j,
    {
        let ghost nv = names.deep_view();
        if j > 0 {
            string_push(&mut out, '/');
        }
        let name = &names[j];
        proof {
            lemma_deep_chars(*name);
        }
        let k = name.len();
        let mut t: usize = 0;
        let ghost base = out@;
        while t < k
            invariant
                k == name@.len(),
                t <= k,
                out@ == base + name@.take(t as int),
            decreases k - t,
        {
            string_push(&mut out, name[t]);
            proof {
                assert(name@.take(t + 1) =~= name@.take(t as int).push(name@[t as int]));
            }
            t = t + 1;
        }
        proof {
            assert(name@.take(k as int) =~= name@);
            assert(nv[j as int] == name@);
            let tk = nv.take(j + 1);
            assert(tk.drop_last() =~= nv.take(j as int));
            assert(tk.last() == name@);
            if j == 0 {
                assert(join_slash(nv.take(0)) =~= Seq::<char>::empty());
                assert(join_slash(tk) == name@);
                assert(out@ =~= prefix + join_slash(tk));
            } else {
                assert(out@ =~= prefix + join_slash(tk));
            }
        }
        j = j + 1;
    }
    proof {
        assert(names.deep_view().take(m as int) =~= names.deep_view());
    }
    out
}

/// Expand `~`, `./`, `../` in a path string, given the home directory and
/// the current working directory.
pub fn expand_path(s: &str, home: &str, cwd: &str) -> (r: String)
    ensures
        r@ == expanded_path(s@, home@, cwd@),
{
    let v = chars_of(s);
    let n = v.len();
    if n == 0 {
        return String::new();
    }
    let mut e = String::new();
    if n == 1 && v[0] == '~' {
        proof {
            assert(s@ =~= seq!['~']);
        }
        e = String::from_str(home);
    } else if n >= 2 && v[0] == '~' && v[1] == '/' {
        e = String::from_str(home);
        string_push(&mut e, '/');
        let rest = string_of(&v, 2, n);
        e.append(rest.as_str());
        proof {
            assert(s@ != seq!['~']);
            assert(s@.skip(2) =~= v@.subrange(2, n as int));
        }
    } else {
        proof {
            if s@ == seq!['~'] {
                assert(s@.len() == 1);
            }
        }
        e = String::from_str(s);
    }
    proof {
        assert(e@ =~= home_expanded(s@, home@));
    }
    let ev = chars_of(e.as_str());
    if ev.len() > 0 && ev[0] == '/' {
        return e;
    }
    let cv = chars_of(cwd);
    let mut j = String::from_str(cwd);
    if !(cv.len() == 0 || cv[cv.len() - 1] == '/') {
        string_push(&mut j, '/');
    }
    j.append(e.as_str());
    proof {
        assert(j@ =~= joined(cwd@, e@));
    }
    normalize_path(j.as_str())
}

/// `s` with every occurrence of `from` replaced by `to`, scanning from the
/// left and not overlapping (as `str::replace` does for a non-empty pattern).
pub open spec fn replaced(s: Seq<char>, from: Seq<char>, to: Seq<char>) -> Seq<char>
    decreases s.len(),
{
    if s.len() == 0 {
        s
    } else if 0 < from.len() <= s.len() && s.take(from.len() as int) == from {
        to + replaced(s.skip(from.len() as int), from, to)
    } else {
        seq![s[0]] + replaced(s.drop_first(), from, to)
    }
}

/// `p` occurs in `s` starting at index `i`.
pub open spec fn occurs_at(s: Seq<char>, p: Seq<char>, i: int) -> bool {
    0 <= i && i + p.len() <= s.len() && s.subrange(i, i + p.len()) == p
}

/// Where no occurrence of `from` starts inside `x`, the replacement leaves
/// `x` as it is and works on what follows it.
pub proof fn lemma_replaced_prefix(x: Seq<char>, y: Seq<char>, from: Seq<char>, to: Seq<char>)
    requires
        from.len() > 0,
        forall|i: int| 0 <= i < x.len() ==> !#[trigger] occurs_at(x + y, from, i),
    ensures
        replaced(x + y, from, to) == x + replaced(y, from, to),
    decreases x.len(),
{
    if x.len() == 0 {
        assert(x + y =~= y);
        assert(x + replaced(y, from, to) =~= replaced(y, from, to));
    } else {
        let s = x + y;
        assert(!occurs_at(s, from, 0));
        assert(s.take(from.len() as int) =~= s.subrange(0, from.len() as int));
        let x1 = x.drop_first();
        assert(s.drop_first() =~= x1 + y);
        assert forall|i: int| 0 <= i < x1.len() implies !#[trigger] occurs_at(x1 + y, from, i) by {
            assert(!occurs_at(s, from, i + 1));
            if occurs_at(x1 + y, from, i) {
                assert((x1 + y).subrange(i, i + from.len()) =~= s.subrange(
                    i + 1,
                    i + 1 + from.len(),
                ));
            }
        }
        lemma_replaced_prefix(x1, y, from, to);
        assert(x =~= seq![x[0]] + x1);
        assert(seq![s[0]] + (x1 + replaced(y, from, to)) =~= x + replaced(y, from, to));
    }
}

/// Replacing a pattern by itself changes nothing.
pub proof fn lemma_replaced_same(s: Seq<char>, p: Seq<char>)
    ensures
        replaced(s, p, p) == s,
    decreases s.len(),
{
    if s.len() > 0 {
        if 0 < p.len() <= s.len() && s.take(p.len() as int) == p {
            lemma_replaced_same(s.skip(p.len() as int), p);
            assert(p + s.skip(p.len() as int) =~= s);
        } else {
            lemma_replaced_same(s.drop_first(), p);
            assert(seq![s[0]] + s.drop_first() =~= s);
        }
    }
}

fn starts_at(v: &Vec<char>, i: usize, p: &Vec<char>) -> (r: bool)
    requires
        i <= v.len(),
    ensures
        r == (p.len() <= v.len() - i && v@.skip(i as int).take(p.len() as int) == p@),
{
    if p.len() > v.len() - i {
        return false;
    }
    let mut k: usize = 0;
    while k < p.len()
        invariant
            p.len() <= v.len() - i,
            k <= p.len(),
            forall|j: int| 0 <= j < k ==> v@[i + j] == p@[j],
        decreases p.len() - k,
    {
        if v[i + k] != p[k] {
            proof {
                assert(v@.skip(i as int).take(p.len() as int)[k as int] != p@[k as int]);
            }
            return false;
        }
        k = k + 1;
    }
    proof {
        assert(v@.skip(i as int).take(p.len() as int) =~= p@);
    }
    true
}

/// Replaces every occurrence of a non-empty `from` by `to`.
pub fn replace_all(s: &str, from: &str, to: &str) -> (r: String)
    requires
        from@.len() > 0,
    ensures
        r@ == replaced(s@, from@, to@),
{
    let v = chars_of(s);
    let f = chars_of(from);
    let n = v.len();
    let mut out = String::new();
    let mut i: usize = 0;
    proof {
        assert(s@.skip(0) =~= s@);
    }
    while i < n
        invariant
            v@ == s@,
            f@ == from@,
            f@.len() > 0,
            n == v.len(),
            i <= n,
            replaced(s@, from@, to@) == out@ + replaced(s@.skip(i as int), from@, to@),
        decreases n - i,
    {
        let ghost rest = s@.skip(i as int);
        if starts_at(&v, i, &f) {
            proof {
                assert(rest.take(from@.len() as int) == from@);
                assert(rest.skip(from@.len() as int) =~= s@.skip(i + f.len()));
            }
            out.append(to);
            i = i + f.len();
        } else {
            proof {
                assert(rest.drop_first() =~= s@.skip(i + 1));
                assert(rest[0] == v@[i as int]);
            }
            string_push(&mut out, v[i]);
            i = i + 1;
        }
    }
    proof {
        assert(s@.skip(n as int) =~= Seq::<char>::empty());
        assert(out@ + Seq::<char>::empty() =~= out@);
    }
    out
}

/// The whitespace-separated words of `s`, in order (as `str::split_whitespace` gives them).
pub open spec fn words(s: Seq<char>) -> Seq<Seq<char>>
    decreases s.len(),
{
    if s.len() == 0 {
        Seq::empty()
    } else {
        let w = words(s.drop_last());
        let c = s.last();
        if is_whitespace(c) {
            w
        } else if s.len() >= 2 && !is_whitespace(s[s.len() - 2]) && w.len() > 0 {
            w.update(w.len() - 1, w.last().push(c))
        } else {
            w.push(seq![c])
        }
    }
}

/// Splits `s` into its whitespace-separated words.
pub fn split_words(s: &str) -> (r: Vec<String>)
    ensures
        crate::config::views(r@) == words(s@),
{
    let v = chars_of(s);
    let n = v.len();
    let mut out: Vec<String> = Vec::new();
    let mut cur: Vec<char> = Vec::new();
    let mut i: usize = 0;
    proof {
        assert(s@.take(0) =~= Seq::<char>::empty());
        assert(crate::config::views(out@) =~= Seq::<Seq<char>>::empty());
    }
    while i < n
        invariant
            v@ == s@,
            n == v.len(),
            i <= n,
            cur@.len() > 0 ==> i > 0 && !is_whitespace(s@[i - 1]),
            i > 0 && !is_whitespace(s@[i - 1]) ==> cur@.len() > 0,
            cur@.len() == 0 ==> crate::config::views(out@) == words(s@.take(i as int)),
            cur@.len() > 0 ==> crate::config::views(out@).push(cur@) == words(s@.take(i as int)),
        decreases n - i,
    {
        let ghost p = s@.take(i as int);
        let ghost p1 = s@.take(i + 1);
        proof {
            assert(p1.drop_last() =~= p);
            assert(p1.last() == v@[i as int]);
            if i > 0 {
                assert(p1[p1.len() - 2] == s@[i - 1]);
            }
        }
        let c = v[i];
        if char_is_whitespace(c) {
            if cur.len() > 0 {
                let w = string_of(&cur, 0, cur.len());
                let ghost before = out@;
                out.push(w);
                proof {
                    assert(cur@.subrange(0, cur@.len() as int) =~= cur@);
                    assert(crate::config::views(out@) =~= crate::config::views(before).push(w@));
                }
                cur = Vec::new();
            }
        } else {
            let ghost before = cur@;
            cur.push(c);
            proof {
                if before.len() > 0 {
                    let w = words(p);
                    assert(w == crate::config::views(out@).push(before));
                    assert(crate::config::views(out@).push(cur@) =~= w.update(w.len() - 1, w.last().push(c)));
                } else {
                    assert(cur@ =~= seq![c]);
                    assert(crate::config::views(out@).push(cur@) =~= words(p).push(seq![c]));
                }
            }
        }
        i = i + 1;
    }
    proof {
        assert(s@.take(n as int) =~= s@);
    }
    if cur.len() > 0 {
        let w = string_of(&cur, 0, cur.len());
        let ghost before = out@;
        out.push(w);
        proof {
            assert(cur@.subrange(0, cur@.len() as int) =~= cur@);
            assert(crate::config::views(out@) =~= crate::config::views(before).push(w@));
        }
    }
    out
}

/// `s` without leading and trailing `c` (as `str::trim_matches(c)` gives it).
pub open spec fn trimmed_of(s: Seq<char>, c: char) -> Seq<char> {
    strip_end_of(strip_start_of(s, c), c)
}

pub open spec fn strip_start_of(s: Seq<char>, c: char) -> Seq<char>
    decreases s.len(),
{
    if s.len() > 0 && s[0] == c {
        strip_start_of(s.drop_first(), c)
    } else {
        s
    }
}

pub open spec fn strip_end_of(s: Seq<char>, c: char) -> Seq<char>
    decreases s.len(),
{
    if s.len() > 0 && s.last() == c {
        strip_end_of(s.drop_last(), c)
    } else {
        s
    }
}

/// Removes every leading and trailing `c`.
pub fn trim_char(s: &str, c: char) -> (r: String)
    ensures
        r@ == trimmed_of(s@, c),
{
    let v = chars_of(s);
    let n = v.len();
    let mut i: usize = 0;
    proof {
        assert(s@.skip(0) =~= s@);
    }
    while i < n && v[i] == c
        invariant
            n == v@.len(),
            v@ == s@,
            i <= n,
            strip_start_of(s@, c) == strip_start_of(s@.skip(i as int), c),
        decreases n - i,
    {
        proof {
            assert(s@.skip(i as int).drop_first() =~= s@.skip(i + 1));
        }
        i = i + 1;
    }
    proof {
        if i == n {
            assert(s@.skip(i as int).len() == 0);
        }
        assert(s@.skip(i as int) =~= s@.subrange(i as int, n as int));
    }
    let mut j: usize = n;
    while j > i && v[j - 1] == c
        invariant
            n == v@.len(),
            v@ == s@,
            i <= j <= n,
            strip_start_of(s@, c) == s@.subrange(i as int, n as int),
            strip_end_of(s@.subrange(i as int, n as int), c) == strip_end_of(
                s@.subrange(i as int, j as int),
                c,
            ),
        decreases j,
    {
        proof {
            assert(s@.subrange(i as int, j as int).drop_last() =~= s@.subrange(i as int, j - 1));
        }
        j = j - 1;
    }
    string_of(&v, i, j)
}

// ───────────────────────── laws ─────────────────────────

/// A name that normalisation keeps: not empty, not `.` or `..`, no `/`.
pub open spec fn kept_name(x: Seq<char>) -> bool {
    x.len() > 0 && x != seq!['.'] && x != seq!['.', '.'] && !x.contains('/')
}

proof fn lemma_norm_names_kept(segs: Seq<Seq<char>>)
    requires
        forall|j: int| 0 <= j < segs.len() ==> !(#[trigger] segs[j]).contains('/'),
    ensures
        forall|i: int| 0 <= i < norm_names(segs).len() ==> kept_name(#[trigger] norm_names(segs)[i]),
    decreases segs.len(),
{
    if segs.len() > 0 {
        let init = segs.drop_last();
        assert forall|j: int| 0 <= j < init.len() implies !(#[trigger] init[j]).contains('/') by {
            assert(init[j] == segs[j]);
        }
        lemma_norm_names_kept(init);
        let prev = norm_names(init);
        let seg = segs.last();
        assert(!segs[segs.len() - 1].contains('/'));
        assert(norm_names(segs) == norm_step(prev, seg));
        if seg.len() == 0 || seg == seq!['.'] {
        } else if seg == seq!['.', '.'] {
            if prev.len() > 0 {
                assert forall|i: int| 0 <= i < prev.drop_last().len() implies kept_name(
                    #[trigger] prev.drop_last()[i],
                ) by {
                    assert(prev.drop_last()[i] == prev[i]);
                }
            }
        } else {
            assert(kept_name(seg));
            assert forall|i: int| 0 <= i < prev.push(seg).len() implies kept_name(
                #[trigger] prev.push(seg)[i],
            ) by {
                if i < prev.len() {
                    assert(prev.push(seg)[i] == prev[i]);
                }
            }
        }
    }
}

proof fn lemma_norm_names_fixed(names: Seq<Seq<char>>)
    requires
        forall|i: int| 0 <= i < names.len() ==> kept_name(#[trigger] names[i]),
    ensures
        norm_names(names) == names,
        norm_names(seq![Seq::<char>::empty()] + names) == names,
    decreases names.len(),
{
    if names.len() == 0 {
        assert(seq![Seq::<char>::empty()] + names =~= seq![Seq::<char>::empty()]);
        assert(seq![Seq::<char>::empty()].drop_last() =~= Seq::<Seq<char>>::empty());
    } else {
        let init = names.drop_last();
        assert forall|i: int| 0 <= i < init.len() implies kept_name(#[trigger] init[i]) by {
            assert(init[i] == names[i]);
        }
        lemma_norm_names_fixed(init);
        assert(kept_name(names[names.len() - 1]));
        assert(init.push(names.last()) =~= names);
        let e = seq![Seq::<char>::empty()] + names;
        assert(e.drop_last() =~= seq![Seq::<char>::empty()] + init);
        assert(e.last() == names.last());
    }
}

proof fn lemma_split_join_slash(names: Seq<Seq<char>>)
    requires
        names.len() >= 1,
        forall|i: int| 0 <= i < names.len() ==> !(#[trigger] names[i]).contains('/'),
    ensures
        split_on(join_slash(names), '/') == names,
    decreases names.len(),
{
    if names.len() == 1 {
        lemma_split_single(names[0], '/');
        assert(seq![names[0]] =~= names);
    } else {
        let init = names.drop_last();
        assert forall|i: int| 0 <= i < init.len() implies !(#[trigger] init[i]).contains('/') by {
            assert(init[i] == names[i]);
        }
        lemma_split_join_slash(init);
        assert(!names[names.len() - 1].contains('/'));
        lemma_split_single(names.last(), '/');
        lemma_split_concat(join_slash(init), names.last(), '/');
        assert(init + seq![names.last()] =~= names);
    }
}

proof fn lemma_join_slash_starts(names: Seq<Seq<char>>)
    requires
        names.len() >= 1,
    ensures
        join_slash(names).len() >= names[0].len(),
        forall|k: int| 0 <= k < names[0].len() ==> #[trigger] join_slash(names)[k] == names[0][k],
    decreases names.len(),
{
    if names.len() > 1 {
        lemma_join_slash_starts(names.drop_last());
        assert(names.drop_last()[0] == names[0]);
    }
}

/// Normalising leaves no `.` or `..` piece, and normalising again changes
/// nothing.
pub proof fn law_normalized(p: Seq<char>)
    ensures
        forall|i: int|
            0 <= i < split_on(normalized(p), '/').len() ==> {
                &&& #[trigger] split_on(normalized(p), '/')[i] != seq!['.']
                &&& split_on(normalized(p), '/')[i] != seq!['.', '.']
            },
        normalized(normalized(p)) == normalized(p),
{
    let segs = split_on(p, '/');
    lemma_split_no_sep(p, '/');
    lemma_norm_names_kept(segs);
    let names = norm_names(segs);
    let j = join_slash(names);
    let q = normalized(p);
    let empty = Seq::<char>::empty();
    assert forall|i: int| 0 <= i < names.len() implies !(#[trigger] names[i]).contains('/') by {
        assert(kept_name(names[i]));
    }
    lemma_norm_names_fixed(names);
    let pieces = split_on(q, '/');
    if names.len() > 0 {
        lemma_split_join_slash(names);
        lemma_join_slash_starts(names);
        assert(kept_name(names[0]));
    } else {
        assert(j =~= empty);
    }
    if p.len() > 0 && p[0] == '/' {
        assert(q == seq!['/'] + j);
        assert(q =~= empty + seq!['/'] + j);
        lemma_split_concat(empty, j, '/');
        assert(split_on(empty, '/') =~= seq![empty]);
        if names.len() == 0 {
            assert(split_on(j, '/') =~= seq![empty]);
            assert(pieces =~= seq![empty, empty]);
            assert(seq![empty, empty].drop_last() =~= seq![empty]);
            assert(seq![empty].drop_last() =~= Seq::<Seq<char>>::empty());
            assert(norm_names(pieces) =~= Seq::<Seq<char>>::empty());
        } else {
            assert(pieces =~= seq![empty] + names);
        }
        assert(norm_names(pieces) == names);
        assert(q[0] == '/');
    } else {
        assert(q == j);
        if names.len() == 0 {
            assert(pieces =~= seq![empty]);
            assert(seq![empty].drop_last() =~= Seq::<Seq<char>>::empty());
            assert(norm_names(pieces) =~= Seq::<Seq<char>>::empty());
            assert(q.len() == 0);
        } else {
            assert(pieces == names);
            assert(q[0] == names[0][0]);
            assert(names[0][0] != '/') by {
                if names[0][0] == '/' {
                    assert(names[0].contains('/'));
                }
            }
        }
    }
    assert forall|i: int| 0 <= i < pieces.len() implies {
        &&& #[trigger] pieces[i] != seq!['.']
        &&& pieces[i] != seq!['.', '.']
    } by {
        if pieces[i].len() > 0 {
            if p.len() > 0 && p[0] == '/' {
                if names.len() > 0 {
                    assert(pieces[i] == names[i - 1]);
                    assert(kept_name(names[i - 1]));
                }
            } else {
                assert(names.len() > 0);
                assert(kept_name(names[i]));
            }
        }
    }
}

} // verus!

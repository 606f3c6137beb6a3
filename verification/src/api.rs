//! What the GitHub requests ask for and how their answers are decoded:
//! request paths, percent-encoding of the search query, base64 payloads,
//! and the order in which directory listings are shown.
use vstd::prelude::*;
use vstd::utf8::{decode_utf8, encode_utf8, valid_utf8};
use crate::types::{EntryType, FileEntry, Issue};
use crate::path::{chars_of, string_push};
use crate::config::eq_str;
use base64::Engine;

verus! {

// ───────────────────────── percent-encoding ─────────────────────────

/// Bytes that percent-encoding leaves as they are: ASCII letters, digits, `-`, `.`, `_`, `~`.
pub open spec fn is_unreserved(b: u8) -> bool {
    (0x30 <= b <= 0x39) || (0x41 <= b <= 0x5A) || (0x61 <= b <= 0x7A) || b == 0x2D || b == 0x2E
        || b == 0x5F || b == 0x7E
}

/// Upper-case hexadecimal digit for `d < 16`.
pub open spec fn hex_digit(d: u8) -> char {
    if d < 10 {
        ((0x30 + d) as u8) as char
    } else {
        ((0x41 - 10 + d) as u8) as char
    }
}

/// Percent-encoding of a byte string: unreserved bytes stay, every other
/// byte becomes `%` and two upper-case hex digits.
pub open spec fn percent_encoded(bytes: Seq<u8>) -> Seq<char>
    decreases bytes.len(),
{
    if bytes.len() == 0 {
        Seq::empty()
    } else {
        let b = bytes.last();
        let last = if is_unreserved(b) {
            seq![b as char]
        } else {
            seq!['%', hex_digit(b >> 4), hex_digit(b & 15)]
        };
        percent_encoded(bytes.drop_last()) + last
    }
}

/// `urlencoding::encode`: the contract states the encoding its source
/// performs on the UTF-8 bytes of `s` (as `percent_encoded` writes it out).
#[verifier::external_body]
fn url_encode(s: &str) -> (r: String)
    ensures
        r@ == percent_encoded(encode_utf8(s@)),
{
    urlencoding::encode(s).into_owned()
}

/// The query as GitHub reads it: a leading `#` asks for a topic
/// (`#rust` becomes `topic:rust`); any other query is searched as it is.
pub open spec fn topic_query(query: Seq<char>) -> Seq<char> {
    if query.len() > 0 && query[0] == '#' {
        "topic:"@ + query.skip(1)
    } else {
        query
    }
}

/// The search text sent to GitHub: the query (a leading `#` as a topic),
/// with a language qualifier when a language filter is set.
pub open spec fn search_text(query: Seq<char>, language: Option<Seq<char>>) -> Seq<char> {
    match language {
        Some(lang) => topic_query(query) + " language:"@ + lang,
        None => topic_query(query),
    }
}

/// Request path of a repository search.
pub fn search_path(query: &str, language: Option<&str>) -> (r: String)
    ensures
        r@ == "/search/repositories?q="@ + percent_encoded(
            encode_utf8(
                search_text(
                    query@,
                    match language {
                        Some(l) => Some(l@),
                        None => None,
                    },
                ),
            ),
        ) + "&per_page=30&sort=stars"@,
{
    let n = query.unicode_len();
    let mut q = if n > 0 && query.get_char(0) == '#' {
        let mut t = String::from_str("topic:");
        t.append(query.substring_char(1, n));
        t
    } else {
        String::from_str(query)
    };
    proof {
        assert(q@ =~= topic_query(query@));
    }
    match language {
        Some(lang) => {
            q.append(" language:");
            q.append(lang);
        },
        None => {},
    }
    let mut r = String::from_str("/search/repositories?q=");
    let enc = url_encode(q.as_str());
    r.append(enc.as_str());
    r.append("&per_page=30&sort=stars");
    r
}

/// `/repos/{owner}/{repo}` followed by `tail`.
fn repo_path(owner: &str, repo: &str, tail: &str) -> (r: String)
    ensures
        r@ == "/repos/"@ + owner@ + "/"@ + repo@ + tail@,
{
    let mut r = String::from_str("/repos/");
    r.append(owner);
    r.append("/");
    r.append(repo);
    r.append(tail);
    r
}

/// Request path of a directory listing; the empty path is the repository root.
pub fn contents_path(owner: &str, repo: &str, path: &str) -> (r: String)
    ensures
        path@.len() == 0 ==> r@ == "/repos/"@ + owner@ + "/"@ + repo@ + "/contents"@,
        path@.len() != 0 ==> r@ == "/repos/"@ + owner@ + "/"@ + repo@ + "/contents/"@ + path@,
{
    if path.unicode_len() == 0 {
        repo_path(owner, repo, "/contents")
    } else {
        file_content_path(owner, repo, path)
    }
}

/// Request path of one file's content.
pub fn file_content_path(owner: &str, repo: &str, path: &str) -> (r: String)
    ensures
        r@ == "/repos/"@ + owner@ + "/"@ + repo@ + "/contents/"@ + path@,
{
    let mut r = repo_path(owner, repo, "/contents/");
    r.append(path);
    proof {
        assert(r@ =~= "/repos/"@ + owner@ + "/"@ + repo@ + "/contents/"@ + path@);
    }
    r
}

/// Request path of a repository's README.
pub fn readme_path(owner: &str, repo: &str) -> (r: String)
    ensures
        r@ == "/repos/"@ + owner@ + "/"@ + repo@ + "/readme"@,
{
    repo_path(owner, repo, "/readme")
}

/// Request path of a repository's forks.
pub fn forks_path(owner: &str, repo: &str) -> (r: String)
    ensures
        r@ == "/repos/"@ + owner@ + "/"@ + repo@ + "/forks"@,
{
    repo_path(owner, repo, "/forks")
}

/// Request path that stars, unstars or checks the star of a repository.
pub fn starred_path(owner: &str, repo: &str) -> (r: String)
    ensures
        r@ == "/user/starred/"@ + owner@ + "/"@ + repo@,
{
    let mut r = String::from_str("/user/starred/");
    r.append(owner);
    r.append("/");
    r.append(repo);
    r
}

// ───────────────────────── base64 payloads ─────────────────────────

/// What the standard base64 engine (with padding) decodes `text` to, or
/// `None` when it refuses it.
pub uninterp spec fn base64_decoded(text: Seq<char>) -> Option<Seq<u8>>;

/// `base64::engine::general_purpose::STANDARD.decode`: the contract names
/// its result `base64_decoded(text@)`, with `None` for a decode error. Which
/// inputs it accepts and what it yields is left to that name.
#[verifier::external_body]
fn base64_decode(text: &str) -> (r: Option<Vec<u8>>)
    ensures
        match r {
            Some(b) => base64_decoded(text@) == Some(b@),
            None => base64_decoded(text@) is None,
        },
{
    base64::engine::general_purpose::STANDARD.decode(text).ok()
}

/// The text that `String::from_utf8_lossy` makes of `bytes`.
pub uninterp spec fn utf8_lossy(bytes: Seq<u8>) -> Seq<char>;

/// `String::from_utf8_lossy`: the contract names the result
/// `utf8_lossy(bytes@)` and states what std documents of valid input: it is
/// decoded as it is. How invalid sequences are replaced is left to the name.
#[verifier::external_body]
pub(crate) fn lossy_string(bytes: &[u8]) -> (r: String)
    ensures
        r@ == utf8_lossy(bytes@),
        valid_utf8(bytes@) ==> r@ == decode_utf8(bytes@),
{
    String::from_utf8_lossy(bytes).into_owned()
}

/// `s` with every newline removed.
pub open spec fn without_newlines(s: Seq<char>) -> Seq<char>
    decreases s.len(),
{
    if s.len() == 0 {
        Seq::empty()
    } else if s.last() == '\n' {
        without_newlines(s.drop_last())
    } else {
        without_newlines(s.drop_last()).push(s.last())
    }
}

/// Removes every newline, as `replace('\n', "")` does.
pub fn strip_newlines(s: &str) -> (r: String)
    ensures
        r@ == without_newlines(s@),
{
    let v = chars_of(s);
    let mut r = String::new();
    let mut i: usize = 0;
    proof {
        assert(s@.take(0) =~= Seq::<char>::empty());
    }
    while i < v.len()
        invariant
            v@ == s@,
            i <= v.len(),
            r@ == without_newlines(s@.take(i as int)),
        decreases v.len() - i,
    {
        proof {
            assert(s@.take(i + 1).drop_last() =~= s@.take(i as int));
        }
        if v[i] != '\n' {
            string_push(&mut r, v[i]);
        }
        i = i + 1;
    }
    proof {
        assert(s@.take(v.len() as int) =~= s@);
    }
    r
}

/// Why a payload could not be turned into text.
#[derive(Debug)]
pub enum DecodeError {
    /// The README came in an encoding other than base64.
    UnexpectedEncoding(String),
    /// The base64 payload did not decode.
    InvalidBase64,
    /// The file came without base64 content.
    NoContent,
}

/// The text a base64 payload stands for: newlines are dropped, the rest is
/// base64-decoded and read as (lossy) UTF-8.
pub open spec fn payload_text(content: Seq<char>) -> Option<Seq<char>> {
    match base64_decoded(without_newlines(content)) {
        Some(bytes) => Some(utf8_lossy(bytes)),
        None => None,
    }
}

/// Turns a base64 payload into text.
pub fn decode_payload(content: &str) -> (r: Result<String, DecodeError>)
    ensures
        match payload_text(content@) {
            Some(t) => r matches Ok(s) && s@ == t,
            None => r matches Err(DecodeError::InvalidBase64),
        },
{
    let clean = strip_newlines(content);
    match base64_decode(clean.as_str()) {
        Some(bytes) => Ok(lossy_string(bytes.as_slice())),
        None => Err(DecodeError::InvalidBase64),
    }
}

/// Text of a README answer: it must be base64-encoded.
pub fn decode_readme(encoding: &str, content: &str) -> (r: Result<String, DecodeError>)
    ensures
        encoding@ != "base64"@ ==> (r matches Err(DecodeError::UnexpectedEncoding(e)) && e@
            == encoding@),
        encoding@ == "base64"@ ==> match payload_text(content@) {
            Some(t) => r matches Ok(s) && s@ == t,
            None => r matches Err(DecodeError::InvalidBase64),
        },
{
    if !eq_str(encoding, "base64") {
        return Err(DecodeError::UnexpectedEncoding(String::from_str(encoding)));
    }
    decode_payload(content)
}

/// Text of a file-content answer: it needs base64 content.
pub fn decode_file_content(content: Option<&str>, encoding: Option<&str>) -> (r: Result<
    String,
    DecodeError,
>)
    ensures
        match (content, encoding) {
            (Some(c), Some(e)) => if e@ == "base64"@ {
                match payload_text(c@) {
                    Some(t) => r matches Ok(s) && s@ == t,
                    None => r matches Err(DecodeError::InvalidBase64),
                }
            } else {
                r matches Err(DecodeError::NoContent)
            },
            _ => r matches Err(DecodeError::NoContent),
        },
{
    match (content, encoding) {
        (Some(c), Some(e)) => {
            if eq_str(e, "base64") {
                decode_payload(c)
            } else {
                Err(DecodeError::NoContent)
            }
        },
        _ => Err(DecodeError::NoContent),
    }
}

// ───────────────────────── directory listings ─────────────────────────

/// The entry kind a listing item's `type` field stands for.
pub fn entry_type_of(item_type: &str) -> (t: EntryType)
    ensures
        t == (if item_type@ == "dir"@ {
            EntryType::Dir
        } else {
            EntryType::File
        }),
{
    if eq_str(item_type, "dir") {
        EntryType::Dir
    } else {
        EntryType::File
    }
}

/// The lower-case form `str::to_lowercase` gives of `s`.
pub uninterp spec fn lowercased(s: Seq<char>) -> Seq<char>;

/// `str::to_lowercase`: the contract names the result `lowercased(s@)`;
/// the Unicode case tables are left to that name.
#[verifier::external_body]
fn to_lower(s: &str) -> (r: String)
    ensures
        r@ == lowercased(s@),
{
    s.to_lowercase()
}

/// `a` comes no later than `b` in code-point order (the order of `String`).
pub open spec fn lex_le(a: Seq<char>, b: Seq<char>) -> bool
    decreases a.len(),
{
    if a.len() == 0 {
        true
    } else if b.len() == 0 {
        false
    } else if a[0] != b[0] {
        (a[0] as u32) < (b[0] as u32)
    } else {
        lex_le(a.drop_first(), b.drop_first())
    }
}

/// Listing order: directories before files, each by lower-cased name.
pub open spec fn entry_le(a: FileEntry, b: FileEntry) -> bool {
    if a.entry_type == EntryType::Dir && b.entry_type == EntryType::File {
        true
    } else if a.entry_type == EntryType::File && b.entry_type == EntryType::Dir {
        false
    } else {
        lex_le(lowercased(a.name@), lowercased(b.name@))
    }
}

/// `e` put into the ordered `sorted` after every entry that does not come
/// after it (so that equal entries keep their order).
pub open spec fn insert_ordered(sorted: Seq<FileEntry>, e: FileEntry) -> Seq<FileEntry>
    decreases sorted.len(),
{
    if sorted.len() == 0 {
        seq![e]
    } else if entry_le(sorted.last(), e) {
        sorted.push(e)
    } else {
        insert_ordered(sorted.drop_last(), e).push(sorted.last())
    }
}

/// The entries in listing order; entries that compare equal keep their
/// given order (as a stable sort leaves them).
pub open spec fn listing_order(entries: Seq<FileEntry>) -> Seq<FileEntry>
    decreases entries.len(),
{
    if entries.len() == 0 {
        Seq::empty()
    } else {
        insert_ordered(listing_order(entries.drop_last()), entries.last())
    }
}

fn chars_le(a: &Vec<char>, b: &Vec<char>) -> (r: bool)
    ensures
        r == lex_le(a@, b@),
{
    let mut i: usize = 0;
    proof {
        assert(a@.skip(0) =~= a@);
        assert(b@.skip(0) =~= b@);
    }
    while i < a.len() && i < b.len() && a[i] == b[i]
        invariant
            i <= a.len(),
            i <= b.len(),
            lex_le(a@, b@) == lex_le(a@.skip(i as int), b@.skip(i as int)),
        decreases a.len() - i,
    {
        proof {
            assert(a@.skip(i as int).drop_first() =~= a@.skip(i + 1));
            assert(b@.skip(i as int).drop_first() =~= b@.skip(i + 1));
        }
        i = i + 1;
    }
    proof {
        if i == 0 {
            assert(a@.skip(0) =~= a@);
            assert(b@.skip(0) =~= b@);
        }
    }
    if i == a.len() {
        true
    } else if i == b.len() {
        false
    } else {
        (a[i] as u32) < (b[i] as u32)
    }
}

fn entry_before(a: &FileEntry, ka: &Vec<char>, b: &FileEntry, kb: &Vec<char>) -> (r: bool)
    requires
        ka@ == lowercased(a.name@),
        kb@ == lowercased(b.name@),
    ensures
        r == entry_le(*a, *b),
{
    if a.entry_type == EntryType::Dir && b.entry_type == EntryType::File {
        true
    } else if a.entry_type == EntryType::File && b.entry_type == EntryType::Dir {
        false
    } else {
        chars_le(ka, kb)
    }
}

/// Directories first, then files, both alphabetical by lower-cased name.
pub fn sort_entries(entries: Vec<FileEntry>) -> (r: Vec<FileEntry>)
    ensures
        r@ == listing_order(entries@),
{
    let mut sorted: Vec<FileEntry> = Vec::new();
    let mut keys: Vec<Vec<char>> = Vec::new();
    let mut i: usize = 0;
    proof {
        assert(entries@.take(0) =~= Seq::<FileEntry>::empty());
    }
    while i < entries.len()
        invariant
            i <= entries.len(),
            sorted@ == listing_order(entries@.take(i as int)),
            keys.len() == sorted.len(),
            forall|j: int|
                0 <= j < sorted.len() ==> #[trigger] keys@[j]@ == lowercased(sorted@[j].name@),
        decreases entries.len() - i,
    {
        let e = entries[i].clone();
        let lower = to_lower(e.name.as_str());
        let k = chars_of(lower.as_str());
        proof {
            let t = entries@.take(i + 1);
            assert(t.drop_last() =~= entries@.take(i as int));
            assert(t.last() == e);
        }
        insert_into(&mut sorted, &mut keys, e, k);
        i = i + 1;
    }
    proof {
        assert(entries@.take(entries.len() as int) =~= entries@);
    }
    sorted
}

fn insert_into(sorted: &mut Vec<FileEntry>, keys: &mut Vec<Vec<char>>, e: FileEntry, k: Vec<char>)
    requires
        old(keys).len() == old(sorted).len(),
        forall|j: int|
            0 <= j < old(sorted).len() ==> #[trigger] old(keys)@[j]@ == lowercased(
                old(sorted)@[j].name@,
            ),
        k@ == lowercased(e.name@),
    ensures
        final(sorted)@ == insert_ordered(old(sorted)@, e),
        final(keys).len() == final(sorted).len(),
        forall|j: int|
            0 <= j < final(sorted).len() ==> #[trigger] final(keys)@[j]@ == lowercased(
                final(sorted)@[j].name@,
            ),
{
    // find the first position from the end whose entry does not come after e
    let n = sorted.len();
    let mut p: usize = n;
    proof {
        assert(sorted@.take(n as int) =~= sorted@);
        assert(insert_ordered(sorted@, e) =~= insert_ordered(sorted@.take(n as int), e)
            + sorted@.skip(n as int));
    }
    while p > 0 && !entry_before(&sorted[p - 1], &keys[p - 1], &e, &k)
        invariant
            p <= n,
            n == sorted.len(),
            keys.len() == n,
            forall|j: int| 0 <= j < n ==> #[trigger] keys@[j]@ == lowercased(sorted@[j].name@),
            k@ == lowercased(e.name@),
            insert_ordered(sorted@, e) == insert_ordered(sorted@.take(p as int), e) + sorted@.skip(
                p as int,
            ),
        decreases p,
    {
        proof {
            let t = sorted@.take(p as int);
            assert(t.last() == sorted@[p - 1]);
            assert(t.drop_last() =~= sorted@.take(p - 1));
            assert(sorted@.skip(p - 1) =~= seq![sorted@[p - 1]] + sorted@.skip(p as int));
            assert(insert_ordered(t, e) == insert_ordered(sorted@.take(p - 1), e).push(
                sorted@[p - 1],
            ));
            assert(insert_ordered(sorted@.take(p - 1), e).push(sorted@[p - 1]) + sorted@.skip(
                p as int,
            ) =~= insert_ordered(sorted@.take(p - 1), e) + sorted@.skip(p - 1));
        }
        p = p - 1;
    }
    proof {
        let t = sorted@.take(p as int);
        if p == 0 {
            assert(t =~= Seq::<FileEntry>::empty());
        } else {
            assert(t.last() == sorted@[p - 1]);
            assert(t =~= t.drop_last().push(t.last()));
        }
        assert(insert_ordered(t, e) =~= t.push(e));
        assert(t.push(e) + sorted@.skip(p as int) =~= sorted@.insert(p as int, e));
    }
    let ghost ks = keys@;
    sorted.insert(p, e);
    keys.insert(p, k);
    proof {
        assert forall|j: int| 0 <= j < sorted.len() implies #[trigger] keys@[j]@ == lowercased(
            sorted@[j].name@,
        ) by {
            if j < p {
                assert(keys@[j] == ks[j]);
            } else if j > p {
                assert(keys@[j] == ks[j - 1]);
            }
        }
    }
}

// ───────────────────────── issue listings ─────────────────────────

/// The items of an issue listing that are pull requests (or, with
/// `pull_requests` false, that are plain issues), in their order.
pub open spec fn of_kind(items: Seq<Issue>, pull_requests: bool) -> Seq<Issue>
    decreases items.len(),
{
    if items.len() == 0 {
        Seq::empty()
    } else {
        let prev = of_kind(items.drop_last(), pull_requests);
        if items.last().pull_request == pull_requests {
            prev.push(items.last())
        } else {
            prev
        }
    }
}

/// Keeps the pull requests of an issue listing, or its plain issues.
pub fn issues_of_kind(items: Vec<Issue>, pull_requests: bool) -> (r: Vec<Issue>)
    ensures
        r@ == of_kind(items@, pull_requests),
{
    let ghost all = items@;
    let n = items.len();
    let mut rest = items;
    let mut rev: Vec<Issue> = Vec::new();
    while rest.len() > 0
        invariant
            n == all.len(),
            rest.len() <= n,
            rest@ == all.take(rest.len() as int),
            rev.len() == n - rest.len(),
            forall|j: int| 0 <= j < rev.len() ==> rev@[j] == all[n - 1 - j],
        decreases rest.len(),
    {
        let ghost before = rest@;
        let x = rest.pop().unwrap();
        proof {
            assert(rest@ =~= all.take(rest.len() as int));
            assert(x == before[before.len() - 1]);
        }
        rev.push(x);
    }
    let mut out: Vec<Issue> = Vec::new();
    proof {
        assert(all.take(0) =~= Seq::<Issue>::empty());
    }
    while rev.len() > 0
        invariant
            n == all.len(),
            rev.len() <= n,
            forall|j: int| 0 <= j < rev.len() ==> rev@[j] == all[n - 1 - j],
            out@ == of_kind(all.take(n - rev.len()), pull_requests),
        decreases rev.len(),
    {
        let ghost k = n - rev.len();
        let ghost before = rev@;
        let x = rev.pop().unwrap();
        proof {
            assert(x == before[before.len() - 1]);
            assert(x == all[k]);
            assert(all.take(k + 1).drop_last() =~= all.take(k));
            assert(all.take(k + 1).last() == all[k]);
        }
        if x.pull_request == pull_requests {
            out.push(x);
        }
    }
    proof {
        assert(all.take(n as int) =~= all);
    }
    out
}

// ───────────────────────── laws ─────────────────────────

proof fn lemma_lex_total(a: Seq<char>, b: Seq<char>)
    ensures
        lex_le(a, b) || lex_le(b, a),
    decreases a.len(),
{
    if a.len() > 0 && b.len() > 0 {
        if a[0] == b[0] {
            lemma_lex_total(a.drop_first(), b.drop_first());
        } else {
            let x = a[0];
            let y = b[0];
            if (x as u32) == (y as u32) {
                vstd::utf8::char_u32_cast(x, x as u32);
                vstd::utf8::char_u32_cast(y, y as u32);
            }
        }
    }
}

proof fn lemma_lex_trans(a: Seq<char>, b: Seq<char>, c: Seq<char>)
    requires
        lex_le(a, b),
        lex_le(b, c),
    ensures
        lex_le(a, c),
    decreases a.len(),
{
    if a.len() > 0 && b.len() > 0 && c.len() > 0 && a[0] == b[0] && b[0] == c[0] {
        lemma_lex_trans(a.drop_first(), b.drop_first(), c.drop_first());
    }
}

proof fn lemma_entry_total(a: FileEntry, b: FileEntry)
    ensures
        entry_le(a, b) || entry_le(b, a),
{
    lemma_lex_total(lowercased(a.name@), lowercased(b.name@));
}

proof fn lemma_entry_trans(a: FileEntry, b: FileEntry, c: FileEntry)
    requires
        entry_le(a, b),
        entry_le(b, c),
    ensures
        entry_le(a, c),
{
    if a.entry_type == b.entry_type && b.entry_type == c.entry_type {
        lemma_lex_trans(lowercased(a.name@), lowercased(b.name@), lowercased(c.name@));
    }
}

/// Every entry comes no later than the entries after it: directories
/// before files, each kind by lower-cased name.
pub open spec fn in_listing_order(s: Seq<FileEntry>) -> bool {
    forall|i: int, j: int| 0 <= i < j < s.len() ==> entry_le(#[trigger] s[i], #[trigger] s[j])
}

proof fn lemma_insert_ordered(s: Seq<FileEntry>, e: FileEntry)
    requires
        in_listing_order(s),
    ensures
        in_listing_order(insert_ordered(s, e)),
        insert_ordered(s, e).to_multiset() == s.to_multiset().insert(e),
        forall|x: FileEntry| #[trigger]
            insert_ordered(s, e).contains(x) ==> x == e || s.contains(x),
    decreases s.len(),
{
    broadcast use vstd::seq_lib::group_to_multiset_ensures;

    if s.len() == 0 {
        assert(seq![e] =~= Seq::<FileEntry>::empty().push(e));
        assert(s =~= Seq::<FileEntry>::empty());
    } else if entry_le(s.last(), e) {
        let r = s.push(e);
        assert forall|i: int, j: int| 0 <= i < j < r.len() implies entry_le(
            #[trigger] r[i],
            #[trigger] r[j],
        ) by {
            if j == s.len() {
                if i < s.len() - 1 {
                    assert(entry_le(s[i], s[s.len() - 1]));
                    lemma_entry_trans(s[i], s.last(), e);
                }
            } else {
                assert(r[i] == s[i] && r[j] == s[j]);
            }
        }
        assert forall|x: FileEntry| #[trigger] r.contains(x) implies x == e || s.contains(x) by {
            if r.contains(x) && x != e {
                let k = choose|k: int| 0 <= k < r.len() && r[k] == x;
                assert(s[k] == x);
            }
        }
    } else {
        let init = s.drop_last();
        let last = s.last();
        assert forall|i: int, j: int| 0 <= i < j < init.len() implies entry_le(
            #[trigger] init[i],
            #[trigger] init[j],
        ) by {
            assert(init[i] == s[i] && init[j] == s[j]);
        }
        lemma_insert_ordered(init, e);
        lemma_entry_total(last, e);
        let t = insert_ordered(init, e);
        let r = t.push(last);
        assert(r == insert_ordered(s, e));
        assert forall|i: int, j: int| 0 <= i < j < r.len() implies entry_le(
            #[trigger] r[i],
            #[trigger] r[j],
        ) by {
            if j == t.len() {
                assert(r[i] == t[i]);
                assert(t.contains(t[i]));
                if t[i] != e {
                    let k = choose|k: int| 0 <= k < init.len() && init[k] == t[i];
                    assert(entry_le(s[k], s[s.len() - 1]));
                }
            } else {
                assert(r[i] == t[i] && r[j] == t[j]);
            }
        }
        assert(s =~= init.push(last));
        assert(r.to_multiset() =~= s.to_multiset().insert(e));
        assert forall|x: FileEntry| #[trigger] r.contains(x) implies x == e || s.contains(x) by {
            if r.contains(x) && x != e {
                let k = choose|k: int| 0 <= k < r.len() && r[k] == x;
                if k < t.len() {
                    assert(t[k] == x);
                    assert(t.contains(x));
                    let m = choose|m: int| 0 <= m < init.len() && init[m] == x;
                    assert(s[m] == x);
                } else {
                    assert(s[s.len() - 1] == x);
                }
            }
        }
    }
}

/// A directory listing comes out sorted (directories before files, each
/// kind by lower-cased name) and holds exactly the entries it was given.
pub proof fn law_listing_sorted(entries: Seq<FileEntry>)
    ensures
        in_listing_order(listing_order(entries)),
        listing_order(entries).to_multiset() == entries.to_multiset(),
    decreases entries.len(),
{
    broadcast use vstd::seq_lib::group_to_multiset_ensures;

    if entries.len() == 0 {
        assert(listing_order(entries).to_multiset() =~= entries.to_multiset());
    } else {
        law_listing_sorted(entries.drop_last());
        lemma_insert_ordered(listing_order(entries.drop_last()), entries.last());
        assert(entries =~= entries.drop_last().push(entries.last()));
    }
}

} // verus!

//! A single-line text field whose cursor is a byte offset into its value.
use vstd::prelude::*;
use vstd::utf8::is_char_boundary;
use crate::text::{
    byte_len, byte_offset, char_pos, is_boundary, lemma_byte_len_concat, lemma_byte_len_single,
    lemma_byte_offset_ends, lemma_byte_offset_le, lemma_byte_offset_mono, lemma_byte_offset_step,
    lemma_char_pos,
    lemma_is_char_boundary, lemma_no_boundary_between, lemma_scalar_width, utf8_width,
};
use crate::path::{expand_path, trim};

verus! {

/// `String::insert`: puts `c` into `s` at byte offset `idx`, which must be a
/// character boundary (std panics otherwise). The contract states that the
/// characters are those of `s` with `c` put at the character position of
/// `idx`, and that a `String` never holds more than `isize::MAX` bytes.
#[verifier::external_body]
fn string_insert(s: &mut String, idx: usize, c: char)
    requires
        is_boundary(old(s)@, idx as int),
    ensures
        final(s)@ == old(s)@.insert(char_pos(old(s)@, idx as int), c),
        byte_len(final(s)@) <= isize::MAX,
{
    s.insert(idx, c)
}

/// `String::remove`: takes out the character that starts at byte offset
/// `idx`, which must be a character boundary before the end (std panics
/// otherwise), and returns it.
#[verifier::external_body]
fn string_remove(s: &mut String, idx: usize) -> (c: char)
    requires
        is_boundary(old(s)@, idx as int),
        idx < byte_len(old(s)@),
    ensures
        c == old(s)@[char_pos(old(s)@, idx as int)],
        final(s)@ == old(s)@.remove(char_pos(old(s)@, idx as int)),
{
    s.remove(idx)
}

/// Number of bytes of the UTF-8 encoding of `c` (what `char::len_utf8` gives).
pub fn char_width(c: char) -> (w: usize)
    ensures
        w == utf8_width(c),
{
    let v = c as u32;
    if v <= 0x7F {
        1
    } else if v <= 0x7FF {
        2
    } else if v <= 0xFFFF {
        3
    } else {
        4
    }
}

/// `String::len`: the number of bytes of the UTF-8 encoding of `s`.
#[verifier::external_body]
pub(crate) fn string_len(s: &String) -> (n: usize)
    ensures
        n == byte_len(s@),
{
    s.len()
}

/// Whether byte offset `i` of `s` starts a character or is its end.
pub fn str_is_boundary(s: &str, i: usize) -> (b: bool)
    ensures
        b == is_boundary(s@, i as int),
{
    proof {
        lemma_is_char_boundary(s@, i as int);
    }
    s.is_char_boundary(i)
}

/// A text input field with cursor support.
pub struct TextInput {
    pub value: String,
    /// Byte offset into `value`.
    pub cursor: usize,
}

impl Clone for TextInput {
    fn clone(&self) -> (r: Self)
        ensures
            r == *self,
    {
        TextInput { value: self.value.clone(), cursor: self.cursor }
    }
}

impl Default for TextInput {
    fn default() -> (r: Self)
        ensures
            r.value@ == Seq::<char>::empty(),
            r.cursor == 0,
    {
        TextInput { value: String::new(), cursor: 0 }
    }
}

/// Removing position `k` leaves the offsets of the positions before it, and
/// shortens the encoding by the width of the removed character.
proof fn lemma_remove_offsets(v: Seq<char>, k: int)
    requires
        0 <= k < v.len(),
    ensures
        forall|j: int| 0 <= j <= k ==> #[trigger] byte_offset(v.remove(k), j) == byte_offset(v, j),
        byte_len(v.remove(k)) + utf8_width(v[k]) == byte_len(v),
{
    assert forall|j: int| 0 <= j <= k implies #[trigger] byte_offset(v.remove(k), j) == byte_offset(
        v,
        j,
    ) by {
        assert(v.remove(k).take(j) =~= v.take(j));
    }
    let a = v.take(k);
    let b = v.skip(k + 1);
    assert(v.remove(k) =~= a + b);
    assert(v =~= (a + seq![v[k]]) + b);
    lemma_byte_len_concat(a, b);
    lemma_byte_len_concat(a + seq![v[k]], b);
    lemma_byte_len_concat(a, seq![v[k]]);
    lemma_byte_len_single(v[k]);
}

/// Inserting `c` at position `k` leaves the offsets up to `k`, puts the
/// offset of `k + 1` right after `c`, and lengthens the encoding by its width.
proof fn lemma_insert_offsets(v: Seq<char>, k: int, c: char)
    requires
        0 <= k <= v.len(),
    ensures
        forall|j: int| 0 <= j <= k ==> #[trigger] byte_offset(v.insert(k, c), j) == byte_offset(v, j),
        byte_offset(v.insert(k, c), k + 1) == byte_offset(v, k) + utf8_width(c),
        byte_len(v.insert(k, c)) == byte_len(v) + utf8_width(c),
{
    let w = v.insert(k, c);
    assert forall|j: int| 0 <= j <= k implies #[trigger] byte_offset(w, j) == byte_offset(v, j) by {
        assert(w.take(j) =~= v.take(j));
    }
    assert(w.take(k + 1) =~= v.take(k) + seq![c]);
    lemma_byte_len_concat(v.take(k), seq![c]);
    lemma_byte_len_single(c);
    assert(w =~= (v.take(k) + seq![c]) + v.skip(k));
    assert(v =~= v.take(k) + v.skip(k));
    lemma_byte_len_concat(v.take(k) + seq![c], v.skip(k));
    lemma_byte_len_concat(v.take(k), v.skip(k));
}

impl TextInput {
    /// The cursor sits on a character boundary of the value.
    pub open spec fn wf(&self) -> bool {
        &&& is_boundary(self.value@, self.cursor as int)
        &&& byte_len(self.value@) <= usize::MAX
    }

    /// The character position of the cursor.
    pub open spec fn pos(&self) -> int {
        char_pos(self.value@, self.cursor as int)
    }

    pub fn new() -> (r: Self)
        ensures
            r.value@ == Seq::<char>::empty(),
            r.cursor == 0,
            r.wf(),
    {
        let r = Self::default();
        proof {
            lemma_byte_offset_ends(r.value@);
        }
        r
    }

    pub fn clear(&mut self)
        ensures
            final(self).value@ == Seq::<char>::empty(),
            final(self).cursor == 0,
            final(self).wf(),
    {
        self.value = String::new();
        self.cursor = 0;
        proof {
            lemma_byte_offset_ends(self.value@);
        }
    }

    pub fn as_str(&self) -> (r: &str)
        ensures
            r@ == self.value@,
    {
        self.value.as_str()
    }

    pub fn is_empty(&self) -> (r: bool)
        ensures
            r == (self.value@.len() == 0),
    {
        self.value.as_str().is_empty()
    }

    /// Puts `c` at the cursor and moves the cursor past it.
    pub fn insert(&mut self, c: char)
        requires
            old(self).wf(),
        ensures
            final(self).wf(),
            final(self).value@ == old(self).value@.insert(old(self).pos(), c),
            final(self).cursor == old(self).cursor + utf8_width(c),
            final(self).pos() == old(self).pos() + 1,
    {
        let ghost v = self.value@;
        let ghost k = self.pos();
        proof {
            lemma_insert_offsets(v, k, c);
            lemma_byte_offset_ends(v);
            lemma_byte_offset_le(v, k, v.len() as int);
        }
        string_insert(&mut self.value, self.cursor, c);
        let w = char_width(c);
        self.cursor = self.cursor + w;
        proof {
            lemma_char_pos(self.value@, k + 1);
        }
    }

    /// Removes the character before the cursor, if there is one.
    pub fn backspace(&mut self)
        requires
            old(self).wf(),
        ensures
            final(self).wf(),
            old(self).cursor == 0 ==> *final(self) == *old(self),
            old(self).cursor > 0 ==> {
                &&& final(self).value@ == old(self).value@.remove(old(self).pos() - 1)
                &&& final(self).cursor == byte_offset(old(self).value@, old(self).pos() - 1)
                &&& final(self).pos() == old(self).pos() - 1
            },
    {
        if self.cursor == 0 {
            return;
        }
        let ghost v = self.value@;
        let ghost k = self.pos();
        proof {
            lemma_byte_offset_ends(v);
            assert(k != 0);
            lemma_byte_offset_step(v, k - 1);
            lemma_scalar_width(v[k - 1]);
        }
        let mut pos = self.cursor - 1;
        while !str_is_boundary(self.value.as_str(), pos)
            invariant
                self.value@ == v,
                0 < k <= v.len(),
                self.cursor == byte_offset(v, k),
                byte_offset(v, k - 1) <= pos < self.cursor,
                byte_offset(v, k - 1) + utf8_width(v[k - 1]) == byte_offset(v, k),
            decreases pos,
        {
            proof {
                lemma_char_pos(v, k - 1);
            }
            pos = pos - 1;
        }
        proof {
            if pos != byte_offset(v, k - 1) {
                lemma_no_boundary_between(v, k - 1, pos as int);
            }
            lemma_char_pos(v, k - 1);
            lemma_remove_offsets(v, k - 1);
            lemma_byte_offset_le(v, k, v.len() as int);
        }
        string_remove(&mut self.value, pos);
        self.cursor = pos;
        proof {
            lemma_char_pos(self.value@, k - 1);
        }
    }

    /// Removes the character at the cursor, if there is one.
    pub fn delete(&mut self)
        requires
            old(self).wf(),
        ensures
            final(self).wf(),
            old(self).cursor >= byte_len(old(self).value@) ==> *final(self) == *old(self),
            old(self).cursor < byte_len(old(self).value@) ==> {
                &&& final(self).value@ == old(self).value@.remove(old(self).pos())
                &&& final(self).cursor == old(self).cursor
                &&& final(self).pos() == old(self).pos()
            },
    {
        let len = string_len(&self.value);
        if self.cursor >= len {
            return;
        }
        let ghost v = self.value@;
        let ghost k = self.pos();
        proof {
            lemma_byte_offset_ends(v);
            if k == v.len() {
                assert(false);
            }
            lemma_remove_offsets(v, k);
            lemma_byte_offset_step(v, k);
            lemma_byte_offset_le(v, k + 1, v.len() as int);
        }
        string_remove(&mut self.value, self.cursor);
        let new_len = string_len(&self.value);
        if self.cursor > new_len {
            self.cursor = new_len;
        }
        proof {
            lemma_char_pos(self.value@, k);
        }
    }

    /// Moves the cursor one character to the left, if it can.
    pub fn move_left(&mut self)
        requires
            old(self).wf(),
        ensures
            final(self).wf(),
            final(self).value == old(self).value,
            old(self).cursor == 0 ==> final(self).cursor == 0,
            old(self).cursor > 0 ==> {
                &&& final(self).cursor == byte_offset(old(self).value@, old(self).pos() - 1)
                &&& final(self).pos() == old(self).pos() - 1
            },
    {
        if self.cursor == 0 {
            return;
        }
        let ghost v = self.value@;
        let ghost k = self.pos();
        proof {
            lemma_byte_offset_ends(v);
            assert(k != 0);
            lemma_byte_offset_step(v, k - 1);
            lemma_scalar_width(v[k - 1]);
        }
        let mut pos = self.cursor - 1;
        while !str_is_boundary(self.value.as_str(), pos)
            invariant
                self.value@ == v,
                0 < k <= v.len(),
                self.cursor == byte_offset(v, k),
                byte_offset(v, k - 1) <= pos < self.cursor,
                byte_offset(v, k - 1) + utf8_width(v[k - 1]) == byte_offset(v, k),
            decreases pos,
        {
            proof {
                lemma_char_pos(v, k - 1);
            }
            pos = pos - 1;
        }
        proof {
            if pos != byte_offset(v, k - 1) {
                lemma_no_boundary_between(v, k - 1, pos as int);
            }
            lemma_char_pos(v, k - 1);
        }
        self.cursor = pos;
    }

    /// Moves the cursor one character to the right, if it can.
    pub fn move_right(&mut self)
        requires
            old(self).wf(),
        ensures
            final(self).wf(),
            final(self).value == old(self).value,
            old(self).cursor >= byte_len(old(self).value@) ==> final(self).cursor == old(
                self,
            ).cursor,
            old(self).cursor < byte_len(old(self).value@) ==> {
                &&& final(self).cursor == byte_offset(old(self).value@, old(self).pos() + 1)
                &&& final(self).pos() == old(self).pos() + 1
            },
    {
        let len = string_len(&self.value);
        if self.cursor >= len {
            return;
        }
        let ghost v = self.value@;
        let ghost k = self.pos();
        proof {
            lemma_byte_offset_ends(v);
            if k == v.len() {
                assert(false);
            }
            lemma_byte_offset_step(v, k);
            lemma_scalar_width(v[k]);
            lemma_byte_offset_le(v, k + 1, v.len() as int);
        }
        let mut pos = self.cursor + 1;
        while pos <= len && !str_is_boundary(self.value.as_str(), pos)
            invariant
                self.value@ == v,
                0 <= k < v.len(),
                len == byte_len(v),
                self.cursor == byte_offset(v, k),
                self.cursor < pos <= byte_offset(v, k + 1),
                byte_offset(v, k + 1) <= len,
            decreases byte_offset(v, k + 1) - pos,
        {
            proof {
                lemma_char_pos(v, k + 1);
            }
            pos = pos + 1;
        }
        proof {
            if pos != byte_offset(v, k + 1) {
                lemma_no_boundary_between(v, k, pos as int);
            }
            lemma_char_pos(v, k + 1);
        }
        self.cursor = pos;
    }

    pub fn move_home(&mut self)
        ensures
            final(self).value == old(self).value,
            final(self).cursor == 0,
            old(self).wf() ==> final(self).wf() && final(self).pos() == 0,
    {
        self.cursor = 0;
        proof {
            lemma_byte_offset_ends(self.value@);
            lemma_char_pos(self.value@, 0);
        }
    }

    pub fn move_end(&mut self)
        requires
            byte_len(old(self).value@) <= usize::MAX,
        ensures
            final(self).value == old(self).value,
            final(self).cursor == byte_len(old(self).value@),
            final(self).wf(),
            final(self).pos() == old(self).value@.len(),
    {
        self.cursor = string_len(&self.value);
        proof {
            lemma_byte_offset_ends(self.value@);
            lemma_char_pos(self.value@, self.value@.len() as int);
        }
    }

    /// Returns a string with a `_` cursor marker inserted at the cursor position,
    /// for display in overlays / search bar.
    pub fn display_with_cursor(&self) -> (r: String)
        requires
            self.wf(),
        ensures
            r@ == self.value@.insert(self.pos(), '_'),
    {
        let mut s = self.value.clone();
        string_insert(&mut s, self.cursor, '_');
        s
    }

    /// Trim and return the value, expanding path shortcuts against the given
    /// home and working directories.
    pub fn to_path(&self, home: &str, cwd: &str) -> (r: String)
        ensures
            r@ == crate::path::expanded_path(crate::path::trimmed(self.value@), home@, cwd@),
    {
        let t = trim(self.value.as_str());
        expand_path(t.as_str(), home, cwd)
    }
}

// ───────────────────────── laws ─────────────────────────

/// Typing a character and then pressing Backspace gives back the text and
/// the cursor that were there before: `insert(c)` leaves the value
/// `v.insert(p, c)` with the cursor after `c`, at position `p + 1`, and
/// Backspace there removes position `p` and puts the cursor at its offset.
pub proof fn law_insert_then_backspace(t: TextInput, c: char)
    requires
        t.wf(),
    ensures
        t.value@.insert(t.pos(), c).remove(t.pos()) == t.value@,
        byte_offset(t.value@.insert(t.pos(), c), t.pos()) == t.cursor,
        t.cursor + utf8_width(c) > 0,
{
    let v = t.value@;
    let p = t.pos();
    assert(0 <= p <= v.len() && byte_offset(v, p) == t.cursor);
    lemma_insert_offsets(v, p, c);
    assert(v.insert(p, c).remove(p) =~= v);
    lemma_scalar_width(c);
}

/// Moving left and then right comes back to the same cursor: from a cursor
/// after the start, Left goes to position `p - 1`, which is before the end,
/// and Right from there goes to the offset of position `p`, the cursor.
pub proof fn law_left_then_right(t: TextInput)
    requires
        t.wf(),
        t.cursor > 0,
    ensures
        t.pos() >= 1,
        byte_offset(t.value@, t.pos() - 1) < byte_len(t.value@),
        char_pos(t.value@, byte_offset(t.value@, t.pos() - 1) as int) == t.pos() - 1,
        byte_offset(t.value@, (t.pos() - 1) + 1) == t.cursor,
{
    let v = t.value@;
    let p = t.pos();
    lemma_byte_offset_ends(v);
    assert(0 <= p <= v.len() && byte_offset(v, p) == t.cursor);
    assert(p != 0);
    lemma_byte_offset_mono(v, p - 1, v.len() as int);
    lemma_char_pos(v, p - 1);
}

/// Moving right and then left comes back to the same cursor: from a cursor
/// before the end, Right goes to position `p + 1`, which is after the
/// start, and Left from there goes to the offset of position `p`.
pub proof fn law_right_then_left(t: TextInput)
    requires
        t.wf(),
        t.cursor < byte_len(t.value@),
    ensures
        t.pos() + 1 <= t.value@.len(),
        byte_offset(t.value@, t.pos() + 1) > 0,
        char_pos(t.value@, byte_offset(t.value@, t.pos() + 1) as int) == t.pos() + 1,
        byte_offset(t.value@, (t.pos() + 1) - 1) == t.cursor,
{
    let v = t.value@;
    let p = t.pos();
    lemma_byte_offset_ends(v);
    assert(0 <= p <= v.len() && byte_offset(v, p) == t.cursor);
    assert(p != v.len());
    lemma_byte_offset_mono(v, 0, p + 1);
    lemma_char_pos(v, p + 1);
}

} // verus!

//! UTF-8 facts about character sequences: byte widths, byte offsets of
//! character positions, and which byte offsets are character boundaries.
use vstd::prelude::*;
use vstd::utf8::{
    char_is_scalar, encode_scalar, encode_utf8, encode_utf8_first_scalar, encode_utf8_valid_utf8,
    is_char_boundary, length_of_first_scalar, pop_first_scalar,
};

verus! {

/// Number of bytes that the UTF-8 encoding of `c` takes.
pub open spec fn utf8_width(c: char) -> nat {
    let v = c as u32;
    if v <= 0x7F {
        1
    } else if v <= 0x7FF {
        2
    } else if v <= 0xFFFF {
        3
    } else {
        4
    }
}

/// Number of bytes that the UTF-8 encoding of `cs` takes.
pub open spec fn byte_len(cs: Seq<char>) -> nat {
    encode_utf8(cs).len()
}

/// Byte offset at which the character at position `k` of `cs` starts.
pub open spec fn byte_offset(cs: Seq<char>, k: int) -> nat {
    byte_len(cs.take(k))
}

/// `i` is the byte offset of some character position of `cs` (its end included).
pub open spec fn is_boundary(cs: Seq<char>, i: int) -> bool {
    exists|k: int| 0 <= k <= cs.len() && #[trigger] byte_offset(cs, k) == i
}

/// The character position whose byte offset is `i` (meaningful when `is_boundary(cs, i)`).
pub open spec fn char_pos(cs: Seq<char>, i: int) -> int {
    choose|k: int| 0 <= k <= cs.len() && #[trigger] byte_offset(cs, k) == i
}

pub proof fn lemma_scalar_width(c: char)
    ensures
        encode_scalar(c as u32).len() == utf8_width(c),
        1 <= utf8_width(c) <= 4,
{
    char_is_scalar(c);
}

pub proof fn lemma_encode_concat(a: Seq<char>, b: Seq<char>)
    ensures
        encode_utf8(a + b) == encode_utf8(a) + encode_utf8(b),
    decreases a.len(),
{
    if a.len() == 0 {
        assert(a + b =~= b);
        assert(encode_utf8(a) + encode_utf8(b) =~= encode_utf8(b));
    } else {
        lemma_encode_concat(a.drop_first(), b);
        assert((a + b).drop_first() =~= a.drop_first() + b);
        assert((a + b)[0] == a[0]);
        assert(encode_utf8(a + b) == encode_scalar(a[0] as u32) + encode_utf8(a.drop_first() + b));
        assert(encode_utf8(a) == encode_scalar(a[0] as u32) + encode_utf8(a.drop_first()));
        assert(encode_scalar(a[0] as u32) + (encode_utf8(a.drop_first()) + encode_utf8(b))
            =~= (encode_scalar(a[0] as u32) + encode_utf8(a.drop_first())) + encode_utf8(b));
    }
}

pub proof fn lemma_byte_len_single(c: char)
    ensures
        byte_len(seq![c]) == utf8_width(c),
{
    lemma_scalar_width(c);
    assert(seq![c].drop_first() =~= Seq::<char>::empty());
    assert(encode_utf8(seq![c]) == encode_scalar(c as u32) + encode_utf8(Seq::<char>::empty()));
    assert(encode_utf8(seq![c]) =~= encode_scalar(c as u32));
}

pub proof fn lemma_byte_len_concat(a: Seq<char>, b: Seq<char>)
    ensures
        byte_len(a + b) == byte_len(a) + byte_len(b),
{
    lemma_encode_concat(a, b);
}

/// The byte offset of position `k + 1` is that of `k` plus the width of the character at `k`.
pub proof fn lemma_byte_offset_step(cs: Seq<char>, k: int)
    requires
        0 <= k < cs.len(),
    ensures
        byte_offset(cs, k + 1) == byte_offset(cs, k) + utf8_width(cs[k]),
{
    assert(cs.take(k + 1) =~= cs.take(k) + seq![cs[k]]);
    lemma_byte_len_concat(cs.take(k), seq![cs[k]]);
    lemma_byte_len_single(cs[k]);
}

pub proof fn lemma_byte_offset_ends(cs: Seq<char>)
    ensures
        byte_offset(cs, 0) == 0,
        byte_offset(cs, cs.len() as int) == byte_len(cs),
{
    assert(cs.take(0) =~= Seq::<char>::empty());
    assert(cs.take(cs.len() as int) =~= cs);
}

/// Byte offsets grow strictly with the character position.
pub proof fn lemma_byte_offset_mono(cs: Seq<char>, j: int, k: int)
    requires
        0 <= j < k <= cs.len(),
    ensures
        byte_offset(cs, j) < byte_offset(cs, k),
    decreases k - j,
{
    lemma_byte_offset_step(cs, k - 1);
    lemma_scalar_width(cs[k - 1]);
    if j < k - 1 {
        lemma_byte_offset_mono(cs, j, k - 1);
    }
}

pub proof fn lemma_byte_offset_le(cs: Seq<char>, j: int, k: int)
    requires
        0 <= j <= k <= cs.len(),
    ensures
        byte_offset(cs, j) <= byte_offset(cs, k),
{
    if j < k {
        lemma_byte_offset_mono(cs, j, k);
    }
}

/// Only one position has a given byte offset.
pub proof fn lemma_byte_offset_injective(cs: Seq<char>, j: int, k: int)
    requires
        0 <= j <= cs.len(),
        0 <= k <= cs.len(),
        byte_offset(cs, j) == byte_offset(cs, k),
    ensures
        j == k,
{
    if j < k {
        lemma_byte_offset_mono(cs, j, k);
    } else if k < j {
        lemma_byte_offset_mono(cs, k, j);
    }
}

/// The position found for a boundary is the one whose offset it is.
pub proof fn lemma_char_pos(cs: Seq<char>, k: int)
    requires
        0 <= k <= cs.len(),
    ensures
        is_boundary(cs, byte_offset(cs, k) as int),
        char_pos(cs, byte_offset(cs, k) as int) == k,
{
    let i = byte_offset(cs, k) as int;
    assert(is_boundary(cs, i));
    let k2 = char_pos(cs, i);
    lemma_byte_offset_injective(cs, k, k2);
}

/// Between the offsets of two neighbouring positions there is no boundary.
pub proof fn lemma_no_boundary_between(cs: Seq<char>, k: int, i: int)
    requires
        0 <= k < cs.len(),
        byte_offset(cs, k) < i < byte_offset(cs, k + 1),
    ensures
        !is_boundary(cs, i),
{
    if is_boundary(cs, i) {
        let m = char_pos(cs, i);
        if m <= k {
            lemma_byte_offset_le(cs, m, k);
        } else {
            lemma_byte_offset_le(cs, k + 1, m);
        }
    }
}

/// vstd's byte-level notion of a character boundary agrees with `is_boundary`.
pub proof fn lemma_is_char_boundary(cs: Seq<char>, i: int)
    ensures
        is_char_boundary(encode_utf8(cs), i) == is_boundary(cs, i),
    decreases cs.len(),
{
    let bytes = encode_utf8(cs);
    encode_utf8_valid_utf8(cs);
    lemma_byte_offset_ends(cs);
    if i == 0 {
        assert(byte_offset(cs, 0) == 0);
    } else if i < 0 || bytes.len() < i {
        if is_boundary(cs, i) {
            let m = char_pos(cs, i);
            lemma_byte_offset_le(cs, m, cs.len() as int);
        }
    } else {
        // cs is not empty here since 0 < i <= bytes.len()
        assert(cs.len() > 0);
        let rest = cs.drop_first();
        encode_utf8_first_scalar(cs);
        lemma_scalar_width(cs[0]);
        let w = length_of_first_scalar(bytes);
        assert(w == utf8_width(cs[0]));
        assert(bytes == encode_scalar(cs[0] as u32) + encode_utf8(rest));
        assert(pop_first_scalar(bytes) =~= encode_utf8(rest));
        lemma_is_char_boundary(rest, i - w);
        assert(is_char_boundary(bytes, i) == is_char_boundary(encode_utf8(rest), i - w));
        // offsets of cs are w plus the offsets of rest, shifted by one position
        assert forall|k: int| 0 <= k <= rest.len() implies #[trigger] byte_offset(cs, k + 1)
            == w + byte_offset(rest, k) by {
            assert(cs.take(k + 1) =~= seq![cs[0]] + rest.take(k));
            lemma_byte_len_concat(seq![cs[0]], rest.take(k));
            lemma_byte_len_single(cs[0]);
        }
        if is_boundary(rest, i - w) {
            let k = char_pos(rest, i - w);
            assert(byte_offset(cs, k + 1) == i);
            assert(is_boundary(cs, i));
        }
        if is_boundary(cs, i) {
            let m = char_pos(cs, i);
            assert(m != 0);
            assert(byte_offset(cs, (m - 1) + 1) == w + byte_offset(rest, m - 1));
            assert(is_boundary(rest, i - w));
        }
    }
}

} // verus!

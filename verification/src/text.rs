//! Text helpers over `Seq<char>`: equality, and splitting on a separator.

use vstd::prelude::*;
use vstd::string::*;

verus! {

/// The characters of an optional string.
pub open spec fn opt_str(o: Option<String>) -> Option<Seq<char>> {
    match o {
        Some(s) => Some(s@),
        None => None,
    }
}

/// The pieces of `s` that lie between the occurrences of `sep`, in order.
/// A text without `sep` is its own single piece; each occurrence starts a new,
/// possibly empty, piece.
pub open spec fn split_on(s: Seq<char>, sep: char) -> Seq<Seq<char>>
    decreases s.len(),
{
    if s.len() == 0 {
        seq![Seq::<char>::empty()]
    } else {
        let head = split_on(s.drop_last(), sep);
        if s.last() == sep {
            head.push(Seq::<char>::empty())
        } else {
            head.drop_last().push(head.last().push(s.last()))
        }
    }
}

/// The piece of `s` at position `n`, counting from zero, if there are that many.
pub open spec fn nth_piece(s: Seq<char>, sep: char, n: int) -> Option<Seq<char>> {
    let pieces = split_on(s, sep);
    if 0 <= n < pieces.len() {
        Some(pieces[n])
    } else {
        None
    }
}

/// Splitting always yields at least one piece.
pub proof fn lemma_split_nonempty(s: Seq<char>, sep: char)
    ensures
        split_on(s, sep).len() >= 1,
    decreases s.len(),
{
    if s.len() > 0 {
        lemma_split_nonempty(s.drop_last(), sep);
    }
}

/// A piece that a separator has closed stays as it is however the text goes on:
/// all pieces of a prefix but its last are pieces of the whole text.
pub proof fn lemma_split_prefix(s: Seq<char>, sep: char, k: int)
    requires
        0 <= k <= s.len(),
    ensures
        split_on(s.take(k), sep).len() <= split_on(s, sep).len(),
        forall|j: int|
            0 <= j < split_on(s.take(k), sep).len() - 1 ==> split_on(s, sep)[j] == split_on(
                s.take(k),
                sep,
            )[j],
    decreases s.len(),
{
    if k == s.len() {
        assert(s.take(k) =~= s);
    } else {
        let shorter = s.drop_last();
        assert(shorter.take(k) =~= s.take(k));
        lemma_split_prefix(shorter, sep, k);
        lemma_split_nonempty(shorter, sep);
        lemma_split_nonempty(s.take(k), sep);
    }
}

/// Whether two texts hold the same characters.
pub fn str_eq(a: &str, b: &str) -> (r: bool)
    ensures
        r == (a@ == b@),
{
    a.to_owned() == b.to_owned()
}

/// The characters of `s`, one element each.
pub fn chars_of(s: &str) -> (v: Vec<char>)
    ensures
        v@ == s@,
{
    let mut v: Vec<char> = Vec::new();
    for c in it: s.chars()
        invariant
            v@ == it.seq().take(it.index() as int),
    {
        v.push(c);
    }
    v
}

/// The piece of `s` at position `n` when `s` is split on `sep`.
pub fn nth_piece_of(s: &str, sep: char, n: usize) -> (r: Option<String>)
    ensures
        opt_str(r) == nth_piece(s@, sep, n as int),
{
    let chars = chars_of(s);
    let len: usize = chars.len();
    let mut i: usize = 0;
    let mut count: usize = 0;
    let mut start: usize = 0;
    while i < len
        invariant
            chars@ == s@,
            len == s@.len(),
            start <= i <= len,
            count <= i,
            count <= n,
            split_on(s@.take(i as int), sep).len() == count + 1,
            split_on(s@.take(i as int), sep).last() == s@.subrange(start as int, i as int),
        decreases len - i,
    {
        proof {
            assert(s@.take(i + 1).drop_last() =~= s@.take(i as int));
            assert(s@.take(i + 1).last() == s@[i as int]);
        }
        if chars[i] == sep {
            if count == n {
                proof {
                    lemma_split_prefix(s@, sep, i + 1);
                    assert(split_on(s@.take(i + 1), sep)[n as int] == s@.subrange(
                        start as int,
                        i as int,
                    ));
                }
                return Some(s.substring_char(start, i).to_owned());
            }
            count = count + 1;
            start = i + 1;
            proof {
                assert(s@.subrange(start as int, i + 1) =~= Seq::<char>::empty());
            }
        } else {
            proof {
                assert(s@.subrange(start as int, i + 1) =~= s@.subrange(
                    start as int,
                    i as int,
                ).push(s@[i as int]));
            }
        }
        i = i + 1;
    }
    proof {
        assert(s@.take(len as int) =~= s@);
    }
    if count == n {
        Some(s.substring_char(start, len).to_owned())
    } else {
        None
    }
}

} // verus!

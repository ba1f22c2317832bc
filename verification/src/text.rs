//! Byte-level searching of response texts.

use vstd::prelude::*;
use vstd::utf8::{encode_utf8, encode_utf8_decode_utf8};

verus! {

/// A text contains another when its UTF-8 encoding contains the other's.
pub open spec fn text_contains(hay: Seq<char>, needle: Seq<char>) -> bool {
    contains_bytes(encode_utf8(hay), encode_utf8(needle))
}

/// `needle` occurs in `hay` starting at position `at`.
pub open spec fn occurs_at(hay: Seq<u8>, needle: Seq<u8>, at: int) -> bool {
    &&& 0 <= at
    &&& at + needle.len() <= hay.len()
    &&& hay.subrange(at, at + needle.len()) == needle
}

/// `needle` occurs somewhere in `hay`.
pub open spec fn contains_bytes(hay: Seq<u8>, needle: Seq<u8>) -> bool {
    exists|at: int| occurs_at(hay, needle, at)
}

/// `at` is the first position of `hay` that holds `b`.
pub open spec fn is_first_index(hay: Seq<u8>, b: u8, at: int) -> bool {
    &&& 0 <= at < hay.len()
    &&& hay[at] == b
    &&& forall|k: int| 0 <= k < at ==> hay[k] != b
}

/// `at` is the last position of `hay` that holds `b`.
pub open spec fn is_last_index(hay: Seq<u8>, b: u8, at: int) -> bool {
    &&& 0 <= at < hay.len()
    &&& hay[at] == b
    &&& forall|k: int| at < k < hay.len() ==> hay[k] != b
}

/// The first position of `b` in `hay`, if it occurs at all.
pub open spec fn first_index(hay: Seq<u8>, b: u8) -> Option<int> {
    if exists|at: int| is_first_index(hay, b, at) {
        Some(choose|at: int| is_first_index(hay, b, at))
    } else {
        None
    }
}

/// The last position of `b` in `hay`, if it occurs at all.
pub open spec fn last_index(hay: Seq<u8>, b: u8) -> Option<int> {
    if exists|at: int| is_last_index(hay, b, at) {
        Some(choose|at: int| is_last_index(hay, b, at))
    } else {
        None
    }
}

/// A first position is unique.
pub proof fn lemma_first_index_unique(hay: Seq<u8>, b: u8, x: int, y: int)
    requires
        is_first_index(hay, b, x),
        is_first_index(hay, b, y),
    ensures
        x == y,
{
    if x < y {
        assert(hay[x] != b);
    } else if y < x {
        assert(hay[y] != b);
    }
}

/// A last position is unique.
pub proof fn lemma_last_index_unique(hay: Seq<u8>, b: u8, x: int, y: int)
    requires
        is_last_index(hay, b, x),
        is_last_index(hay, b, y),
    ensures
        x == y,
{
    if x < y {
        assert(hay[y] != b);
    } else if y < x {
        assert(hay[x] != b);
    }
}

/// Does `needle` stand in `hay` at position `at`?
pub fn matches_at(hay: &[u8], needle: &[u8], at: usize) -> (found: bool)
    ensures
        found == occurs_at(hay@, needle@, at as int),
{
    let h: usize = hay.len();
    let n: usize = needle.len();
    if n > h || at > h - n {
        return false;
    }
    let mut j: usize = 0;
    while j < n
        invariant
            h == hay@.len(),
            n == needle@.len(),
            at + n <= h,
            0 <= j <= n,
            forall|k: int| 0 <= k < j ==> hay@[at + k] == needle@[k],
        decreases n - j,
    {
        if hay[at + j] != needle[j] {
            proof {
                let window = hay@.subrange(at as int, at + n);
                assert(window[j as int] == hay@[at + j]);
            }
            return false;
        }
        j += 1;
    }
    proof {
        assert(hay@.subrange(at as int, at + n) =~= needle@);
    }
    true
}

/// Does `needle` occur anywhere in `hay`?
pub fn contains(hay: &[u8], needle: &[u8]) -> (found: bool)
    ensures
        found == contains_bytes(hay@, needle@),
{
    let h: usize = hay.len();
    let n: usize = needle.len();
    if n > h {
        return false;
    }
    let last: usize = h - n;
    let mut i: usize = 0;
    while i < last
        invariant
            h == hay@.len(),
            n == needle@.len(),
            n <= h,
            last == h - n,
            0 <= i <= last,
            forall|k: int| 0 <= k < i ==> !occurs_at(hay@, needle@, k),
        decreases last - i,
    {
        if matches_at(hay, needle, i) {
            return true;
        }
        i += 1;
    }
    matches_at(hay, needle, last)
}

/// The first position of `b` in `hay`.
pub fn find_first(hay: &[u8], b: u8) -> (at: Option<usize>)
    ensures
        at is Some <==> hay@.contains(b),
        at is Some ==> is_first_index(hay@, b, at.unwrap() as int),
        first_index(hay@, b) == (match at {
            Some(i) => Some(i as int),
            None => None,
        }),
{
    let h: usize = hay.len();
    let mut i: usize = 0;
    while i < h
        invariant
            h == hay@.len(),
            0 <= i <= h,
            forall|k: int| 0 <= k < i ==> hay@[k] != b,
        decreases h - i,
    {
        if hay[i] == b {
            proof {
                assert(is_first_index(hay@, b, i as int));
                let c = choose|at: int| is_first_index(hay@, b, at);
                lemma_first_index_unique(hay@, b, c, i as int);
            }
            return Some(i);
        }
        i += 1;
    }
    None
}

/// The last position of `b` in `hay`.
pub fn find_last(hay: &[u8], b: u8) -> (at: Option<usize>)
    ensures
        at is Some <==> hay@.contains(b),
        at is Some ==> is_last_index(hay@, b, at.unwrap() as int),
        last_index(hay@, b) == (match at {
            Some(i) => Some(i as int),
            None => None,
        }),
{
    let h: usize = hay.len();
    let mut i: usize = h;
    while i > 0
        invariant
            h == hay@.len(),
            0 <= i <= h,
            forall|k: int| i <= k < h ==> hay@[k] != b,
        decreases i,
    {
        i -= 1;
        if hay[i] == b {
            proof {
                assert(is_last_index(hay@, b, i as int));
                let c = choose|at: int| is_last_index(hay@, b, at);
                lemma_last_index_unique(hay@, b, c, i as int);
            }
            return Some(i);
        }
    }
    None
}

/// Does `needle` occur anywhere in the text `hay`?
pub fn str_contains(hay: &str, needle: &str) -> (found: bool)
    ensures
        found == text_contains(hay@, needle@),
{
    contains(hay.as_bytes(), needle.as_bytes())
}

/// Two texts with the same UTF-8 encoding are the same text.
pub proof fn lemma_encoding_injective(a: Seq<char>, b: Seq<char>)
    requires
        encode_utf8(a) == encode_utf8(b),
    ensures
        a == b,
{
    encode_utf8_decode_utf8(a);
    encode_utf8_decode_utf8(b);
}

/// Are the two texts the same?
pub fn same_text(a: &str, b: &str) -> (same: bool)
    ensures
        same == (a@ == b@),
{
    let x = a.as_bytes();
    let y = b.as_bytes();
    if x.len() != y.len() {
        return false;
    }
    let same = matches_at(x, y, 0);
    proof {
        assert(x@.subrange(0, x@.len() as int) =~= x@);
        if same {
            lemma_encoding_injective(a@, b@);
        }
    }
    same
}

/// The two texts, one after the other.
pub fn concat2(a: &str, b: &str) -> (joined: String)
    ensures
        joined@ == a@ + b@,
{
    let mut joined = a.to_owned();
    joined.append(b);
    joined
}

/// The three texts, one after the other.
pub fn concat3(a: &str, b: &str, c: &str) -> (joined: String)
    ensures
        joined@ == a@ + b@ + c@,
{
    let mut joined = a.to_owned();
    joined.append(b);
    joined.append(c);
    joined
}

/// The four texts, one after the other.
pub fn concat4(a: &str, b: &str, c: &str, d: &str) -> (joined: String)
    ensures
        joined@ == a@ + b@ + c@ + d@,
{
    let mut joined = a.to_owned();
    joined.append(b);
    joined.append(c);
    joined.append(d);
    joined
}

} // verus!

//! Byte-level text helpers: whitespace trimming over the UTF-8 forms of the
//! Unicode whitespace characters, byte searches, and subrange copies, each
//! tied to a spec-level definition.

use vstd::prelude::*;

verus! {

/// One-byte whitespace: the ASCII whitespace characters (tab, line feed,
/// vertical tab, form feed, carriage return, space).
pub open spec fn is_ws_1(b: u8) -> bool {
    b == 9 || b == 10 || b == 11 || b == 12 || b == 13 || b == 32
}

/// Two-byte UTF-8 whitespace: U+0085 (next line) and U+00A0 (no-break
/// space).
pub open spec fn is_ws_2(a: u8, b: u8) -> bool {
    a == 0xC2 && (b == 0x85 || b == 0xA0)
}

/// Three-byte UTF-8 whitespace: U+1680, U+2000 through U+200A, U+2028,
/// U+2029, U+202F, U+205F and U+3000 — the rest of the characters with the
/// Unicode White_Space property.
pub open spec fn is_ws_3(a: u8, b: u8, c: u8) -> bool {
    (a == 0xE1 && b == 0x9A && c == 0x80) || (a == 0xE2 && b == 0x80 && (0x80 <= c <= 0x8A || c
        == 0xA8 || c == 0xA9 || c == 0xAF)) || (a == 0xE2 && b == 0x81 && c == 0x9F) || (a == 0xE3
        && b == 0x80 && c == 0x80)
}

/// The length of the whitespace character encoded at the front of `s`:
/// 1, 2 or 3 bytes, or 0 when `s` does not start with whitespace. On valid
/// UTF-8 this recognizes exactly the characters `char::is_whitespace`
/// accepts, since every multi-byte form here starts with a byte that can
/// only be a UTF-8 lead byte.
pub open spec fn ws_prefix_len(s: Seq<u8>) -> nat {
    if s.len() >= 1 && is_ws_1(s[0]) {
        1
    } else if s.len() >= 2 && is_ws_2(s[0], s[1]) {
        2
    } else if s.len() >= 3 && is_ws_3(s[0], s[1], s[2]) {
        3
    } else {
        0
    }
}

/// The length of the whitespace character encoded at the back of `s`, or 0.
/// As at the front, on valid UTF-8 a matching byte suffix can only be a
/// whole final character.
pub open spec fn ws_suffix_len(s: Seq<u8>) -> nat {
    let n = s.len();
    if n >= 1 && is_ws_1(s[n - 1]) {
        1
    } else if n >= 2 && is_ws_2(s[n - 2], s[n - 1]) {
        2
    } else if n >= 3 && is_ws_3(s[n - 3], s[n - 2], s[n - 1]) {
        3
    } else {
        0
    }
}

/// The bytes with leading whitespace characters removed.
pub open spec fn spec_trim_front(s: Seq<u8>) -> Seq<u8>
    decreases s.len(),
{
    if ws_prefix_len(s) == 0 {
        s
    } else {
        spec_trim_front(s.skip(ws_prefix_len(s) as int))
    }
}

/// The bytes with trailing whitespace characters removed.
pub open spec fn spec_trim_back(s: Seq<u8>) -> Seq<u8>
    decreases s.len(),
{
    if ws_suffix_len(s) == 0 {
        s
    } else {
        spec_trim_back(s.take(s.len() - ws_suffix_len(s)))
    }
}

/// The bytes with whitespace characters removed from both ends.
pub open spec fn spec_trim(s: Seq<u8>) -> Seq<u8> {
    spec_trim_back(spec_trim_front(s))
}

/// The length of the whitespace character at position `i` of `s`, or 0.
fn ws_len_at(s: &Vec<u8>, i: usize) -> (r: usize)
    requires
        i <= s@.len(),
    ensures
        r == ws_prefix_len(s@.skip(i as int)),
{
    let n = s.len();
    proof {
        let rest = s@.skip(i as int);
        assert(rest.len() == n - i);
        if rest.len() >= 1 {
            assert(rest[0] == s@[i as int]);
        }
        if rest.len() >= 2 {
            assert(rest[1] == s@[i + 1 as int]);
        }
        if rest.len() >= 3 {
            assert(rest[2] == s@[i + 2 as int]);
        }
    }
    if i < n && (s[i] == 9 || s[i] == 10 || s[i] == 11 || s[i] == 12 || s[i] == 13 || s[i] == 32) {
        1
    } else if n - i >= 2 && s[i] == 0xC2 && (s[i + 1] == 0x85 || s[i + 1] == 0xA0) {
        2
    } else if n - i >= 3 && is_ws_3_exec(s[i], s[i + 1], s[i + 2]) {
        3
    } else {
        0
    }
}

fn is_ws_3_exec(a: u8, b: u8, c: u8) -> (r: bool)
    ensures
        r == is_ws_3(a, b, c),
{
    (a == 0xE1 && b == 0x9A && c == 0x80) || (a == 0xE2 && b == 0x80 && ((c >= 0x80 && c <= 0x8A)
        || c == 0xA8 || c == 0xA9 || c == 0xAF)) || (a == 0xE2 && b == 0x81 && c == 0x9F) || (a
        == 0xE3 && b == 0x80 && c == 0x80)
}

/// The length of the whitespace character at the back of `s[lo..hi]`, or 0.
fn ws_len_before(s: &Vec<u8>, lo: usize, hi: usize) -> (r: usize)
    requires
        lo <= hi <= s@.len(),
    ensures
        r == ws_suffix_len(s@.subrange(lo as int, hi as int)),
{
    let len = hi - lo;
    proof {
        let part = s@.subrange(lo as int, hi as int);
        assert(part.len() == len);
        if len >= 1 {
            assert(part[len - 1 as int] == s@[hi - 1 as int]);
        }
        if len >= 2 {
            assert(part[len - 2 as int] == s@[hi - 2 as int]);
        }
        if len >= 3 {
            assert(part[len - 3 as int] == s@[hi - 3 as int]);
        }
    }
    if len == 0 {
        return 0;
    }
    let z = hi - 1;
    if s[z] == 9 || s[z] == 10 || s[z] == 11 || s[z] == 12 || s[z] == 13 || s[z] == 32 {
        1
    } else if len >= 2 && s[hi - 2] == 0xC2 && (s[z] == 0x85 || s[z] == 0xA0) {
        2
    } else if len >= 3 && is_ws_3_exec(s[hi - 3], s[hi - 2], s[z]) {
        3
    } else {
        0
    }
}

/// Copy the bytes of `s[lo..hi]`.
pub fn subrange_vec(s: &Vec<u8>, lo: usize, hi: usize) -> (r: Vec<u8>)
    requires
        lo <= hi <= s@.len(),
    ensures
        r@ == s@.subrange(lo as int, hi as int),
{
    let mut r: Vec<u8> = Vec::new();
    let mut i: usize = lo;
    while i < hi
        invariant
            lo <= i <= hi <= s@.len(),
            r@ == s@.subrange(lo as int, i as int),
        decreases hi - i,
    {
        r.push(s[i]);
        proof {
            assert(r@ =~= s@.subrange(lo as int, i + 1 as int));
        }
        i += 1;
    }
    r
}

/// Skip the whitespace characters at the front of `s`, from position
/// `start`: afterwards the remainder of `s` is its own front-trimming.
pub fn skip_ws(s: &Vec<u8>, start: usize) -> (lo: usize)
    requires
        start <= s@.len(),
    ensures
        start <= lo <= s@.len(),
        spec_trim_front(s@.skip(start as int)) == s@.skip(lo as int),
        ws_prefix_len(s@.skip(lo as int)) == 0,
{
    let n = s.len();
    let mut lo: usize = start;
    while ws_len_at(s, lo) > 0
        invariant
            start <= lo <= n,
            n == s@.len(),
            spec_trim_front(s@.skip(start as int)) == spec_trim_front(s@.skip(lo as int)),
        decreases n - lo,
    {
        let k = ws_len_at(s, lo);
        proof {
            let rest = s@.skip(lo as int);
            assert(k == ws_prefix_len(rest));
            assert(k <= rest.len());
            assert(spec_trim_front(rest) == spec_trim_front(rest.skip(k as int)));
            assert(rest.skip(k as int) =~= s@.skip(lo + k as int));
        }
        lo += k;
    }
    lo
}

/// The bytes with whitespace characters removed from both ends.
pub fn trim_vec(s: &Vec<u8>) -> (r: Vec<u8>)
    ensures
        r@ == spec_trim(s@),
{
    let n = s.len();
    proof {
        assert(s@.skip(0) =~= s@);
    }
    let lo = skip_ws(s, 0);
    let ghost front = s@.skip(lo as int);
    let mut hi: usize = n;
    proof {
        assert(front =~= s@.subrange(lo as int, n as int));
    }
    while ws_len_before(s, lo, hi) > 0
        invariant
            lo <= hi <= n,
            n == s@.len(),
            spec_trim_back(front) == spec_trim_back(s@.subrange(lo as int, hi as int)),
        decreases hi,
    {
        let k = ws_len_before(s, lo, hi);
        proof {
            let part = s@.subrange(lo as int, hi as int);
            assert(k == ws_suffix_len(part));
            assert(k <= part.len());
            assert(spec_trim_back(part) == spec_trim_back(part.take(part.len() - k)));
            assert(part.take(part.len() - k) =~= s@.subrange(lo as int, hi - k as int));
        }
        hi -= k;
    }
    proof {
        assert(spec_trim_back(s@.subrange(lo as int, hi as int)) == s@.subrange(
            lo as int,
            hi as int,
        ));
    }
    subrange_vec(s, lo, hi)
}

/// The position of the first occurrence of `b`.
pub open spec fn spec_find_first(s: Seq<u8>, b: u8) -> Option<int>
    decreases s.len(),
{
    if s.len() == 0 {
        None
    } else if s[0] == b {
        Some(0int)
    } else {
        match spec_find_first(s.skip(1), b) {
            Some(i) => Some(i + 1),
            None => None,
        }
    }
}

/// The position of the last occurrence of `b`.
pub open spec fn spec_find_last(s: Seq<u8>, b: u8) -> Option<int>
    decreases s.len(),
{
    if s.len() == 0 {
        None
    } else if s.last() == b {
        Some(s.len() - 1)
    } else {
        spec_find_last(s.drop_last(), b)
    }
}

proof fn lemma_find_first_at(s: Seq<u8>, b: u8, i: int)
    requires
        0 <= i < s.len(),
        s[i] == b,
        forall|j: int| 0 <= j < i ==> s[j] != b,
    ensures
        spec_find_first(s, b) == Some(i),
    decreases i,
{
    if i > 0 {
        lemma_find_first_at(s.skip(1), b, i - 1);
    }
}

proof fn lemma_find_first_none(s: Seq<u8>, b: u8)
    requires
        forall|j: int| 0 <= j < s.len() ==> s[j] != b,
    ensures
        spec_find_first(s, b) is None,
    decreases s.len(),
{
    if s.len() > 0 {
        lemma_find_first_none(s.skip(1), b);
    }
}

proof fn lemma_find_last_at(s: Seq<u8>, b: u8, i: int)
    requires
        0 <= i < s.len(),
        s[i] == b,
        forall|j: int| i < j < s.len() ==> s[j] != b,
    ensures
        spec_find_last(s, b) == Some(i),
    decreases s.len(),
{
    if i < s.len() - 1 {
        lemma_find_last_at(s.drop_last(), b, i);
    }
}

proof fn lemma_find_last_none(s: Seq<u8>, b: u8)
    requires
        forall|j: int| 0 <= j < s.len() ==> s[j] != b,
    ensures
        spec_find_last(s, b) is None,
    decreases s.len(),
{
    if s.len() > 0 {
        lemma_find_last_none(s.drop_last(), b);
    }
}

/// The index of the first occurrence of `b` in `s`.
pub fn find_first(s: &Vec<u8>, b: u8) -> (r: Option<usize>)
    ensures
        r matches Some(i) ==> i < s@.len() && spec_find_first(s@, b) == Some(i as int),
        r is None ==> spec_find_first(s@, b) is None,
{
    let n = s.len();
    let mut i: usize = 0;
    while i < n
        invariant
            n == s@.len(),
            i <= n,
            forall|j: int| 0 <= j < i ==> s@[j] != b,
        decreases n - i,
    {
        if s[i] == b {
            proof {
                lemma_find_first_at(s@, b, i as int);
            }
            return Some(i);
        }
        i += 1;
    }
    proof {
        lemma_find_first_none(s@, b);
    }
    None
}

/// The index of the last occurrence of `b` in `s`.
pub fn find_last(s: &Vec<u8>, b: u8) -> (r: Option<usize>)
    ensures
        r matches Some(i) ==> i < s@.len() && spec_find_last(s@, b) == Some(i as int),
        r is None ==> spec_find_last(s@, b) is None,
{
    let n = s.len();
    let mut i: usize = n;
    while i > 0
        invariant
            n == s@.len(),
            i <= n,
            forall|j: int| i <= j < n ==> s@[j] != b,
        decreases i,
    {
        if s[i - 1] == b {
            proof {
                lemma_find_last_at(s@, b, i - 1);
            }
            return Some(i - 1);
        }
        i -= 1;
    }
    proof {
        lemma_find_last_none(s@, b);
    }
    None
}

} // verus!

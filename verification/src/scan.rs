//! Byte-sequence scanning: first occurrence of a pattern or of a single
//! byte, subranges, and concatenation. Everything the resolver and the
//! manifest rewriter do with text reduces to these.

use vstd::prelude::*;

verus! {

/// The pattern `pat` occurs in `s` starting at index `i`.
pub open spec fn is_match_at(s: Seq<u8>, pat: Seq<u8>, i: int) -> bool {
    &&& 0 <= i
    &&& i + pat.len() <= s.len()
    &&& forall|j: int| 0 <= j < pat.len() ==> s[i + j] == pat[j]
}

/// The pattern occurs somewhere in `s`.
pub open spec fn has_match(s: Seq<u8>, pat: Seq<u8>) -> bool {
    exists|i: int| is_match_at(s, pat, i)
}

/// `i` is the first index at which `pat` occurs in `s`.
pub open spec fn first_match_at(s: Seq<u8>, pat: Seq<u8>, i: int) -> bool {
    &&& is_match_at(s, pat, i)
    &&& forall|j: int| 0 <= j < i ==> !is_match_at(s, pat, j)
}

/// The first index of a pattern is unique.
pub proof fn lemma_first_match_unique(s: Seq<u8>, pat: Seq<u8>, i1: int, i2: int)
    requires
        first_match_at(s, pat, i1),
        first_match_at(s, pat, i2),
    ensures
        i1 == i2,
{
    if i1 < i2 {
        assert(!is_match_at(s, pat, i1));
    }
    if i2 < i1 {
        assert(!is_match_at(s, pat, i2));
    }
}

/// Whether `pat` occurs in `s` at the given index.
pub fn match_at(s: &Vec<u8>, pat: &Vec<u8>, i: usize) -> (r: bool)
    requires
        i + pat@.len() <= s@.len(),
    ensures
        r == is_match_at(s@, pat@, i as int),
{
    let n: usize = s.len();
    let mut j: usize = 0;
    while j < pat.len()
        invariant
            i + pat@.len() <= s@.len(),
            n == s@.len(),
            j <= pat@.len(),
            forall|k: int| 0 <= k < j ==> s@[i + k] == pat@[k],
        decreases pat@.len() - j,
    {
        assert(i + j < n);
        if s[i + j] != pat[j] {
            assert(!is_match_at(s@, pat@, i as int)) by {
                assert(s@[i + j] != pat@[j as int]);
            }
            return false;
        }
        j += 1;
    }
    true
}

/// The first occurrence of `pat` in `s` at or after `from`, or `None` when
/// there is none.
pub fn find_from(s: &Vec<u8>, pat: &Vec<u8>, from: usize) -> (r: Option<usize>)
    requires
        from <= s@.len(),
    ensures
        match r {
            Some(i) => {
                &&& from <= i
                &&& is_match_at(s@, pat@, i as int)
                &&& forall|j: int| from <= j < i ==> !is_match_at(s@, pat@, j)
            },
            None => forall|j: int| from <= j ==> !is_match_at(s@, pat@, j),
        },
{
    if pat.len() > s.len() {
        return None;
    }
    if pat.len() == 0 {
        return Some(from);
    }
    let last: usize = s.len() - pat.len();
    let mut i: usize = from;
    while i <= last
        invariant
            from <= i,
            1 <= pat@.len() <= s@.len(),
            last == s@.len() - pat@.len(),
            last < usize::MAX,
            forall|j: int| from <= j < i ==> !is_match_at(s@, pat@, j),
        decreases last + 1 - i,
    {
        if match_at(s, pat, i) {
            return Some(i);
        }
        i += 1;
    }
    None
}

/// The first occurrence of the byte `b` in `s` at or after `from`, or
/// `None` when there is none.
pub fn find_byte_from(s: &Vec<u8>, b: u8, from: usize) -> (r: Option<usize>)
    requires
        from <= s@.len(),
    ensures
        match r {
            Some(k) => {
                &&& from <= k < s@.len()
                &&& s@[k as int] == b
                &&& forall|j: int| from <= j < k ==> s@[j] != b
            },
            None => forall|j: int| from <= j < s@.len() ==> s@[j] != b,
        },
{
    let mut k: usize = from;
    while k < s.len()
        invariant
            from <= k <= s@.len(),
            forall|j: int| from <= j < k ==> s@[j] != b,
        decreases s@.len() - k,
    {
        if s[k] == b {
            return Some(k);
        }
        k += 1;
    }
    None
}

/// A copy of `s[from..to]`.
pub fn sub_bytes(s: &Vec<u8>, from: usize, to: usize) -> (r: Vec<u8>)
    requires
        from <= to <= s@.len(),
    ensures
        r@ == s@.subrange(from as int, to as int),
{
    let mut r: Vec<u8> = Vec::new();
    let mut k: usize = from;
    while k < to
        invariant
            from <= k <= to <= s@.len(),
            r@ == s@.subrange(from as int, k as int),
        decreases to - k,
    {
        r.push(s[k]);
        assert(r@ =~= s@.subrange(from as int, k as int + 1));
        k += 1;
    }
    r
}

/// The concatenation of `a` and `b`.
pub fn concat_bytes(a: &Vec<u8>, b: &Vec<u8>) -> (r: Vec<u8>)
    ensures
        r@ == a@ + b@,
{
    let mut r: Vec<u8> = Vec::new();
    let mut k: usize = 0;
    while k < a.len()
        invariant
            k <= a@.len(),
            r@ == a@.subrange(0, k as int),
        decreases a@.len() - k,
    {
        r.push(a[k]);
        assert(r@ =~= a@.subrange(0, k as int + 1));
        k += 1;
    }
    let mut k2: usize = 0;
    while k2 < b.len()
        invariant
            k2 <= b@.len(),
            r@ == a@ + b@.subrange(0, k2 as int),
        decreases b@.len() - k2,
    {
        r.push(b[k2]);
        assert(r@ =~= a@ + b@.subrange(0, k2 as int + 1));
        k2 += 1;
    }
    assert(r@ =~= a@ + b@);
    r
}

} // verus!

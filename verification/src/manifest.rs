//! Rewriting a submodule manifest: an ordered sequence of text lines in
//! which every line holding the URL marker has its URL part replaced by a
//! resolved mirror URL, while every other line stays byte-identical.
//!
//! The file itself, and the resolution of each URL, stay outside the
//! library: the caller reads the lines, asks for the pending URLs, resolves
//! them one by one in order, and applies the results.

use vstd::prelude::*;

use crate::scan::{concat_bytes, find_from, first_match_at, has_match, is_match_at,
    lemma_first_match_unique, sub_bytes};

verus! {

/// The marker that makes a line a rewrite candidate, `url = https`.
pub open spec fn url_marker() -> Seq<u8> {
    seq![
        'u' as u8,
        'r' as u8,
        'l' as u8,
        ' ' as u8,
        '=' as u8,
        ' ' as u8,
        'h' as u8,
        't' as u8,
        't' as u8,
        'p' as u8,
        's' as u8,
    ]
}

fn url_marker_bytes() -> (v: Vec<u8>)
    ensures
        v@ == url_marker(),
{
    let mut v: Vec<u8> = Vec::new();
    v.push('u' as u8);
    v.push('r' as u8);
    v.push('l' as u8);
    v.push(' ' as u8);
    v.push('=' as u8);
    v.push(' ' as u8);
    v.push('h' as u8);
    v.push('t' as u8);
    v.push('t' as u8);
    v.push('p' as u8);
    v.push('s' as u8);
    proof {
        assert(v@ =~= url_marker());
    }
    v
}

/// A line is rewritten exactly when it holds the URL marker.
pub open spec fn line_matches(l: Seq<u8>) -> bool {
    has_match(l, url_marker())
}

/// The split point of a matching line: six bytes past the start of the
/// first marker, that is, right after `url = `.
pub open spec fn split_of(l: Seq<u8>) -> int {
    (choose|i: int| first_match_at(l, url_marker(), i)) + 6
}

/// The part of a matching line that is kept: everything up to and
/// including `url = `.
pub open spec fn line_head(l: Seq<u8>) -> Seq<u8> {
    l.subrange(0, split_of(l))
}

/// The part of a matching line that is resolved: everything after
/// `url = `, beginning with `https`.
pub open spec fn line_url(l: Seq<u8>) -> Seq<u8> {
    l.subrange(split_of(l), l.len() as int)
}

/// Splits a manifest line at the URL marker: the kept head and the URL to
/// resolve, or nothing for a line without the marker.
pub fn split_submodule_line(line: &Vec<u8>) -> (r: Option<(Vec<u8>, Vec<u8>)>)
    ensures
        match r {
            None => !line_matches(line@),
            Some(p) => {
                &&& line_matches(line@)
                &&& p.0@ == line_head(line@)
                &&& p.1@ == line_url(line@)
            },
        },
{
    let marker = url_marker_bytes();
    match find_from(line, &marker, 0) {
        None => {
            proof {
                assert forall|i: int| !is_match_at(line@, url_marker(), i) by {
                    if is_match_at(line@, url_marker(), i) {
                        assert(0 <= i);
                    }
                }
            }
            None
        },
        Some(i) => {
            let n: usize = line.len();
            assert(i + 6 <= n);
            let head = sub_bytes(line, 0, i + 6);
            let url = sub_bytes(line, i + 6, n);
            proof {
                assert(first_match_at(line@, url_marker(), i as int));
                let ci = choose|ci: int| first_match_at(line@, url_marker(), ci);
                lemma_first_match_unique(line@, url_marker(), i as int, ci);
            }
            Some((head, url))
        },
    }
}

/// Rebuilds a line from its kept head and the resolved mirror URL.
pub fn join_submodule_line(head: &Vec<u8>, mirror: &Vec<u8>) -> (r: Vec<u8>)
    ensures
        r@ == head@ + mirror@,
{
    concat_bytes(head, mirror)
}

/// How many of the first `n` lines hold the URL marker.
pub open spec fn match_count_upto(lines: Seq<Vec<u8>>, n: int) -> int
    decreases n,
{
    if n <= 0 {
        0
    } else if line_matches(lines[n - 1]@) {
        match_count_upto(lines, n - 1) + 1
    } else {
        match_count_upto(lines, n - 1)
    }
}

/// How many lines hold the URL marker.
pub open spec fn match_count(lines: Seq<Vec<u8>>) -> int {
    match_count_upto(lines, lines.len() as int)
}

/// The count of matching lines never decreases as more lines are counted.
pub proof fn lemma_match_count_mono(lines: Seq<Vec<u8>>, a: int, b: int)
    requires
        a <= b,
    ensures
        match_count_upto(lines, a) <= match_count_upto(lines, b),
    decreases b - a,
{
    if a < b {
        lemma_match_count_mono(lines, a, b - 1);
    }
}

/// The URLs of the matching lines, in line order: the list of lookups a
/// manifest pass performs, one per matching line.
pub fn pending_urls(lines: &Vec<Vec<u8>>) -> (r: Vec<Vec<u8>>)
    ensures
        r@.len() == match_count(lines@),
        forall|i: int|
            0 <= i < lines@.len() && line_matches(lines@[i]@) ==> r@[match_count_upto(
                lines@,
                i,
            )]@ == line_url(lines@[i]@),
{
    let mut r: Vec<Vec<u8>> = Vec::new();
    let mut i: usize = 0;
    while i < lines.len()
        invariant
            i <= lines@.len(),
            r@.len() == match_count_upto(lines@, i as int),
            forall|j: int|
                0 <= j < i && line_matches(lines@[j]@) ==> r@[match_count_upto(lines@, j)]@
                    == line_url(lines@[j]@),
        decreases lines@.len() - i,
    {
        let ghost iold = i as int;
        proof {
            lemma_match_count_mono(lines@, 0, iold);
            assert forall|j: int|
                0 <= j < iold && line_matches(lines@[j]@) implies 0 <= match_count_upto(
                lines@,
                j,
            ) < match_count_upto(lines@, iold) by {
                lemma_match_count_mono(lines@, 0, j);
                assert(match_count_upto(lines@, j + 1) == match_count_upto(lines@, j) + 1);
                lemma_match_count_mono(lines@, j + 1, iold);
            }
        }
        match split_submodule_line(&lines[i]) {
            None => {},
            Some(p) => {
                let (_, url) = p;
                r.push(url);
            },
        }
        i += 1;
    }
    r
}

/// Applies resolved mirror URLs to the lines of a manifest: the output has
/// one line per input line, in order; a line without the marker is kept
/// byte-identical; a line with the marker becomes its head followed by the
/// resolved URL of its rank. Nothing is produced when the number of
/// resolved URLs is not the number of matching lines.
pub fn apply_resolved(lines: &Vec<Vec<u8>>, resolved: &Vec<Vec<u8>>) -> (r: Option<Vec<Vec<u8>>>)
    ensures
        match r {
            None => resolved@.len() != match_count(lines@),
            Some(out) => {
                &&& resolved@.len() == match_count(lines@)
                &&& out@.len() == lines@.len()
                &&& forall|i: int|
                    0 <= i < lines@.len() && !line_matches(lines@[i]@) ==> out@[i]@
                        == lines@[i]@
                &&& forall|i: int|
                    0 <= i < lines@.len() && line_matches(lines@[i]@) ==> out@[i]@
                        == line_head(lines@[i]@) + resolved@[match_count_upto(lines@, i)]@
            },
        },
{
    let mut out: Vec<Vec<u8>> = Vec::new();
    let mut j: usize = 0;
    let mut i: usize = 0;
    while i < lines.len()
        invariant
            i <= lines@.len(),
            out@.len() == i,
            j == match_count_upto(lines@, i as int),
            j <= resolved@.len(),
            forall|t: int|
                0 <= t < i && !line_matches(lines@[t]@) ==> out@[t]@ == lines@[t]@,
            forall|t: int|
                0 <= t < i && line_matches(lines@[t]@) ==> out@[t]@ == line_head(lines@[t]@)
                    + resolved@[match_count_upto(lines@, t)]@,
        decreases lines@.len() - i,
    {
        let ghost iold = i as int;
        proof {
            lemma_match_count_mono(lines@, 0, iold);
            assert forall|t: int|
                0 <= t < iold && line_matches(lines@[t]@) implies 0 <= match_count_upto(
                lines@,
                t,
            ) < match_count_upto(lines@, iold) by {
                lemma_match_count_mono(lines@, 0, t);
                assert(match_count_upto(lines@, t + 1) == match_count_upto(lines@, t) + 1);
                lemma_match_count_mono(lines@, t + 1, iold);
            }
        }
        match split_submodule_line(&lines[i]) {
            None => {
                let n: usize = lines[i].len();
                let copy = sub_bytes(&lines[i], 0, n);
                proof {
                    assert(copy@ =~= lines@[iold]@);
                }
                out.push(copy);
            },
            Some(p) => {
                let (head, _) = p;
                if j == resolved.len() {
                    proof {
                        lemma_match_count_mono(lines@, iold + 1, lines@.len() as int);
                    }
                    return None;
                }
                let rebuilt = join_submodule_line(&head, &resolved[j]);
                out.push(rebuilt);
                j += 1;
            },
        }
        i += 1;
    }
    if j != resolved.len() {
        return None;
    }
    Some(out)
}

/// The manifest backup is written only when none exists yet: a later pass
/// never refreshes an existing backup.
pub fn backup_needed(backup_exists: bool) -> (r: bool)
    ensures
        r == !backup_exists,
{
    !backup_exists
}

} // verus!

//! Verified utilities on character sequences: substring search, splitting,
//! joining and character replacement, used to take module paths apart and to
//! assemble candidate package names.

use vstd::prelude::*;

verus! {

/// The pattern `d` occurs in `s` at position `i`.
pub open spec fn matches_at(s: Seq<char>, d: Seq<char>, i: int) -> bool {
    0 <= i && i + d.len() <= s.len() && s.subrange(i, i + d.len() as int) == d
}

/// Position of the first occurrence of `d` in `s`, if any.
pub open spec fn first_match(s: Seq<char>, d: Seq<char>) -> Option<int>
    decreases s.len(),
{
    if matches_at(s, d, 0) {
        Some(0)
    } else if s.len() == 0 {
        None
    } else {
        match first_match(s.drop_first(), d) {
            Some(i) => Some(i + 1),
            None => None,
        }
    }
}

/// Occurrences of `d` in the tail of `s` are exactly the occurrences in `s`
/// shifted by one.
proof fn lemma_matches_at_shift(s: Seq<char>, d: Seq<char>, j: int)
    requires
        s.len() > 0,
        0 <= j,
    ensures
        matches_at(s.drop_first(), d, j) <==> matches_at(s, d, j + 1),
{
    if j + 1 + d.len() <= s.len() {
        assert(s.drop_first().subrange(j, j + d.len() as int) =~= s.subrange(
            j + 1,
            j + 1 + d.len() as int,
        ));
    }
}

/// `first_match` returns the least position where `d` occurs in `s`,
/// and `None` exactly when `d` does not occur at all.
pub proof fn lemma_first_match(s: Seq<char>, d: Seq<char>)
    ensures
        match first_match(s, d) {
            Some(i) => matches_at(s, d, i) && forall|j: int| 0 <= j < i ==> !matches_at(s, d, j),
            None => forall|j: int| !matches_at(s, d, j),
        },
    decreases s.len(),
{
    if matches_at(s, d, 0) {
    } else if s.len() == 0 {
        assert forall|j: int| !matches_at(s, d, j) by {
            if 0 <= j && j + d.len() <= s.len() {
                assert(j == 0 || d.len() == 0);
            }
        }
    } else {
        lemma_first_match(s.drop_first(), d);
        match first_match(s.drop_first(), d) {
            Some(i) => {
                lemma_matches_at_shift(s, d, i);
                assert forall|j: int| 0 <= j < i + 1 implies !matches_at(s, d, j) by {
                    if j > 0 {
                        lemma_matches_at_shift(s, d, j - 1);
                    }
                }
            },
            None => {
                assert forall|j: int| !matches_at(s, d, j) by {
                    if j > 0 {
                        lemma_matches_at_shift(s, d, j - 1);
                    }
                }
            },
        }
    }
}

/// Find the position of the first occurrence of `pattern` in `s`.
pub fn find_first(s: &str, pattern: &str) -> (r: Option<usize>)
    ensures
        match r {
            Some(i) => first_match(s@, pattern@) == Some(i as int),
            None => first_match(s@, pattern@) is None,
        },
{
    proof {
        lemma_first_match(s@, pattern@);
    }
    let n: usize = s.unicode_len();
    let m: usize = pattern.unicode_len();
    if m > n {
        return None;
    }
    if m == 0 {
        proof {
            assert(s@.subrange(0, 0) =~= pattern@);
            assert(matches_at(s@, pattern@, 0));
        }
        return Some(0);
    }
    let mut i: usize = 0;
    while i <= n - m
        invariant
            n == s@.len(),
            m == pattern@.len(),
            1 <= m <= n,
            i <= n,
            forall|j: int| 0 <= j < i ==> !matches_at(s@, pattern@, j),
        decreases n - i,
    {
        let mut k: usize = 0;
        let mut mismatch = false;
        while k < m && !mismatch
            invariant
                n == s@.len(),
                m == pattern@.len(),
                i + m <= n,
                k <= m,
                !mismatch ==> forall|t: int| 0 <= t < k ==> s@[i + t] == pattern@[t],
                mismatch ==> !matches_at(s@, pattern@, i as int),
            decreases m - k + (if mismatch { 0int } else { 1int }),
        {
            if s.get_char(i + k) != pattern.get_char(k) {
                proof {
                    if matches_at(s@, pattern@, i as int) {
                        assert(s@.subrange(i as int, i + m as int)[k as int] == pattern@[k as int]);
                    }
                }
                mismatch = true;
            } else {
                k = k + 1;
            }
        }
        if !mismatch {
            proof {
                assert(s@.subrange(i as int, i + m as int) =~= pattern@);
                assert(matches_at(s@, pattern@, i as int));
                lemma_first_match(s@, pattern@);
                match first_match(s@, pattern@) {
                    Some(fi) => {
                        if fi < i as int {
                            assert(!matches_at(s@, pattern@, fi));
                        }
                        if (i as int) < fi {
                            assert(!matches_at(s@, pattern@, i as int));
                        }
                    },
                    None => {
                        assert(!matches_at(s@, pattern@, i as int));
                    },
                }
            }
            return Some(i);
        }
        i = i + 1;
    }
    proof {
        assert forall|j: int| !matches_at(s@, pattern@, j) by {
            if 0 <= j && j + m <= n {
                assert(j < i);
            }
        }
    }
    None
}

/// The part of `s` before the first occurrence of `d`, and the rest of `s`
/// from that occurrence on (`d` included); `s` itself and the empty sequence
/// when `d` does not occur.
pub open spec fn break_at_spec(s: Seq<char>, d: Seq<char>) -> (Seq<char>, Seq<char>) {
    match first_match(s, d) {
        Some(i) => (s.take(i), s.skip(i)),
        None => (s, Seq::empty()),
    }
}

/// Split `s` at the first occurrence of `delimiter`; the second half keeps the
/// delimiter. When the delimiter does not occur, the first half is all of `s`.
pub fn break_at(s: &str, delimiter: &str) -> (r: (String, String))
    ensures
        r.0@ == break_at_spec(s@, delimiter@).0,
        r.1@ == break_at_spec(s@, delimiter@).1,
{
    proof {
        lemma_first_match(s@, delimiter@);
    }
    let n: usize = s.unicode_len();
    match find_first(s, delimiter) {
        Some(i) => {
            let head = s.substring_char(0, i).to_owned();
            let tail = s.substring_char(i, n).to_owned();
            proof {
                assert(head@ =~= s@.take(i as int));
                assert(tail@ =~= s@.skip(i as int));
            }
            (head, tail)
        },
        None => (s.to_owned(), String::new()),
    }
}

/// The pieces of `s` between consecutive occurrences of `d`, in order.
pub open spec fn split_on(s: Seq<char>, d: Seq<char>) -> Seq<Seq<char>>
    recommends
        d.len() > 0,
    decreases s.len(),
    when d.len() > 0
    via split_on_decreases
{
    match first_match(s, d) {
        None => seq![s],
        Some(i) => seq![s.take(i)] + split_on(s.skip(i + d.len() as int), d),
    }
}

#[via_fn]
proof fn split_on_decreases(s: Seq<char>, d: Seq<char>) {
    lemma_first_match(s, d);
}

/// Split `s` on every occurrence of `delimiter`.
pub fn split_str(s: &str, delimiter: &str) -> (r: Vec<String>)
    requires
        delimiter@.len() > 0,
    ensures
        r.deep_view() == split_on(s@, delimiter@),
    decreases s@.len(),
{
    proof {
        lemma_first_match(s@, delimiter@);
    }
    let n: usize = s.unicode_len();
    let m: usize = delimiter.unicode_len();
    match find_first(s, delimiter) {
        None => {
            let mut v: Vec<String> = Vec::new();
            v.push(s.to_owned());
            proof {
                assert(v.deep_view() =~= split_on(s@, delimiter@));
            }
            v
        },
        Some(i) => {
            let head = s.substring_char(0, i).to_owned();
            let rest = s.substring_char(i + m, n);
            let mut v = split_str(rest, delimiter);
            v.insert(0, head);
            proof {
                assert(rest@ =~= s@.skip(i + m as int));
                assert(head@ =~= s@.take(i as int));
                assert(v.deep_view() =~= split_on(s@, delimiter@));
            }
            v
        },
    }
}

/// The elements of `parts` joined with a single slash between neighbours.
pub open spec fn join_slash(parts: Seq<Seq<char>>) -> Seq<char>
    decreases parts.len(),
{
    if parts.len() == 0 {
        Seq::empty()
    } else if parts.len() == 1 {
        parts[0]
    } else {
        join_slash(parts.drop_last()) + seq!['/'] + parts.last()
    }
}

/// Join the first `count` elements of `parts` with slashes.
pub fn join_prefix(parts: &Vec<String>, count: usize) -> (r: String)
    requires
        count <= parts@.len(),
    ensures
        r@ == join_slash(parts.deep_view().take(count as int)),
{
    let mut out = String::new();
    let mut j: usize = 0;
    while j < count
        invariant
            j <= count <= parts@.len(),
            parts.deep_view().len() == parts@.len(),
            out@ == join_slash(parts.deep_view().take(j as int)),
        decreases count - j,
    {
        if j > 0 {
            out.append("/");
        }
        out.append(parts[j].as_str());
        j = j + 1;
        proof {
            reveal_strlit("/");
            let dv = parts.deep_view();
            assert(dv.take(j as int).drop_last() =~= dv.take(j - 1));
            assert(dv.take(j as int).last() == dv[j - 1]);
            if j > 1 {
                assert("/"@ =~= seq!['/']);
            } else {
                assert(out@ =~= dv[0]);
            }
        }
    }
    out
}

/// `s` with every underscore replaced by a hyphen.
pub open spec fn hyphenate(s: Seq<char>) -> Seq<char> {
    Seq::new(s.len(), |i: int| if s[i] == '_' { '-' } else { s[i] })
}

/// Replace every underscore in `s` with a hyphen.
pub fn replace_underscores(s: &str) -> (r: String)
    ensures
        r@ == hyphenate(s@),
{
    let n: usize = s.unicode_len();
    let mut out = String::new();
    let mut i: usize = 0;
    while i < n
        invariant
            i <= n,
            n == s@.len(),
            out@.len() == i,
            forall|t: int| 0 <= t < i ==> out@[t] == hyphenate(s@)[t],
        decreases n - i,
    {
        let c = s.get_char(i);
        if c == '_' {
            out.append("-");
            proof {
                reveal_strlit("-");
            }
        } else {
            let piece = s.substring_char(i, i + 1);
            out.append(piece);
        }
        i = i + 1;
    }
    proof {
        assert(out@ =~= hyphenate(s@));
    }
    out
}

} // verus!

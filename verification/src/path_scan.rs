//! Splitting a URL path into `/`-separated segments and scanning the
//! segments for the four recognized product-path keywords.

use vstd::prelude::*;

verus! {

/// Index of the first `'/'` in `s`, or `s.len()` if there is none.
pub open spec fn first_slash(s: Seq<char>) -> int
    decreases s.len(),
{
    if s.len() == 0 {
        0
    } else if s[0] == '/' {
        0
    } else {
        1 + first_slash(s.drop_first())
    }
}

/// `s` split on `'/'`, as `str::split` does it: every run between two
/// separators is a segment, and empty segments (leading, trailing, or
/// between adjacent separators) are preserved.
pub open spec fn split_slash(s: Seq<char>) -> Seq<Seq<char>>
    decreases s.len(),
{
    let i = first_slash(s);
    if 0 <= i < s.len() {
        seq![s.subrange(0, i)] + split_slash(s.subrange(i + 1, s.len() as int))
    } else {
        seq![s]
    }
}

/// `first_slash` is pinned by any index that has no `'/'` before it and
/// either a `'/'` at it or the end of the sequence.
pub proof fn lemma_first_slash_at(s: Seq<char>, k: int)
    requires
        0 <= k <= s.len(),
        forall|j: int| 0 <= j < k ==> s[j] != '/',
        k == s.len() || s[k] == '/',
    ensures
        first_slash(s) == k,
    decreases s.len(),
{
    if s.len() != 0 && s[0] != '/' {
        let t = s.drop_first();
        assert forall|j: int| 0 <= j < k - 1 implies t[j] != '/' by {
            assert(t[j] == s[j + 1]);
        }
        lemma_first_slash_at(t, k - 1);
    }
}

/// When `s` has no `'/'` before index `k` and a `'/'` at `k`, splitting
/// peels off exactly `s[0..k]` as the first segment.
pub proof fn lemma_split_step(s: Seq<char>, k: int)
    requires
        0 <= k < s.len(),
        forall|j: int| 0 <= j < k ==> s[j] != '/',
        s[k] == '/',
    ensures
        split_slash(s) == seq![s.subrange(0, k)] + split_slash(
            s.subrange(k + 1, s.len() as int),
        ),
{
    lemma_first_slash_at(s, k);
}

/// When `s` has no `'/'` at all, it is a single segment.
pub proof fn lemma_split_whole(s: Seq<char>)
    requires
        forall|j: int| 0 <= j < s.len() ==> s[j] != '/',
    ensures
        split_slash(s) == seq![s],
{
    lemma_first_slash_at(s, s.len() as int);
}

/// The distance from a recognized keyword segment to the identifier
/// segment, or `0` for a segment that is no keyword: `dp` is followed
/// directly by the identifier, `gp` (as in `gp/product/<id>`) and `o`
/// (as in `o/ASIN/<id>`) skip one segment, and `exec` (as in
/// `exec/obidos/asin/<id>`) skips two.
pub open spec fn keyword_offset(seg: Seq<char>) -> int {
    if seg == "dp"@ {
        1
    } else if seg == "gp"@ {
        2
    } else if seg == "o"@ {
        2
    } else if seg == "exec"@ {
        3
    } else {
        0
    }
}

/// The scan over the segments, starting at index `i`: the first keyword
/// segment wins, and its identifier is the segment at the keyword's
/// offset. A keyword whose offset falls past the end aborts the whole
/// scan, so a later keyword is never consulted.
pub open spec fn scan_from(parts: Seq<Seq<char>>, i: int) -> Option<Seq<char>>
    decreases parts.len() - i,
{
    if i < 0 || i >= parts.len() {
        None
    } else if keyword_offset(parts[i]) > 0 {
        if i + keyword_offset(parts[i]) < parts.len() {
            Some(parts[i + keyword_offset(parts[i])])
        } else {
            None
        }
    } else {
        scan_from(parts, i + 1)
    }
}

/// The product identifier a path holds: scan its `/`-separated segments
/// from the start for the first keyword.
pub open spec fn path_product_id(path: Seq<char>) -> Option<Seq<char>> {
    scan_from(split_slash(path), 0)
}

/// The character sequences a vector of strings holds.
pub open spec fn seq_views(v: Seq<String>) -> Seq<Seq<char>> {
    v.map_values(|s: String| s@)
}

/// Splits `s` on `'/'`, preserving empty segments.
pub fn split_segments(s: &str) -> (r: Vec<String>)
    ensures
        seq_views(r@) == split_slash(s@),
{
    let n = s.unicode_len();
    let mut out: Vec<String> = Vec::new();
    let mut start: usize = 0;
    let mut i: usize = 0;
    proof {
        assert(s@.subrange(0, n as int) =~= s@);
        assert(seq_views(out@) + split_slash(s@) =~= split_slash(s@));
    }
    while i < n
        invariant
            start <= i <= n,
            n == s@.len(),
            forall|j: int| start <= j < i ==> s@[j] != '/',
            seq_views(out@) + split_slash(s@.subrange(start as int, n as int)) == split_slash(
                s@,
            ),
        decreases n - i,
    {
        if s.get_char(i) == '/' {
            let seg = String::from_str(s.substring_char(start, i));
            proof {
                let t = s@.subrange(start as int, n as int);
                assert forall|j: int| 0 <= j < i - start implies t[j] != '/' by {
                    assert(t[j] == s@[start + j]);
                }
                assert(t[i - start] == s@[i as int]);
                lemma_split_step(t, i - start);
                assert(t.subrange(0, i - start) =~= s@.subrange(start as int, i as int));
                assert(t.subrange(i - start + 1, t.len() as int) =~= s@.subrange(
                    i as int + 1,
                    n as int,
                ));
                assert(seg@ == s@.subrange(start as int, i as int));
                assert(seq_views(out@.push(seg)) =~= seq_views(out@).push(seg@));
                assert(seq_views(out@.push(seg)) + split_slash(
                    s@.subrange(i as int + 1, n as int),
                ) =~= seq_views(out@) + split_slash(s@.subrange(start as int, n as int)));
            }
            out.push(seg);
            start = i + 1;
        }
        i = i + 1;
    }
    let seg = String::from_str(s.substring_char(start, n));
    proof {
        let t = s@.subrange(start as int, n as int);
        assert forall|j: int| 0 <= j < t.len() implies t[j] != '/' by {
            assert(t[j] == s@[start + j]);
        }
        lemma_split_whole(t);
        assert(seq_views(out@.push(seg)) =~= seq_views(out@).push(seg@));
        assert(seq_views(out@.push(seg)) =~= seq_views(out@) + split_slash(t));
    }
    out.push(seg);
    out
}

/// Decides, character by character, which keyword `seg` is, if any.
/// Matching is exact and case-sensitive, per whole segment.
pub fn keyword_offset_at(seg: &String) -> (r: usize)
    ensures
        r as int == keyword_offset(seg@),
{
    proof {
        reveal_strlit("dp");
        reveal_strlit("gp");
        reveal_strlit("o");
        reveal_strlit("exec");
    }
    let s = seg.as_str();
    let n = s.unicode_len();
    if n == 2 && s.get_char(0) == 'd' && s.get_char(1) == 'p' {
        proof {
            assert(seg@ =~= "dp"@);
        }
        1
    } else if n == 2 && s.get_char(0) == 'g' && s.get_char(1) == 'p' {
        proof {
            assert(seg@ =~= "gp"@);
        }
        2
    } else if n == 1 && s.get_char(0) == 'o' {
        proof {
            assert(seg@ =~= "o"@);
        }
        2
    } else if n == 4 && s.get_char(0) == 'e' && s.get_char(1) == 'x' && s.get_char(2) == 'e'
        && s.get_char(3) == 'c' {
        proof {
            assert(seg@ =~= "exec"@);
        }
        3
    } else {
        0
    }
}

/// Scans the segments in order for the first keyword and returns the
/// identifier at its offset; a keyword whose offset falls past the end
/// aborts the scan.
pub fn find_product_id(parts: &Vec<String>) -> (r: Option<String>)
    ensures
        r matches Some(id) ==> scan_from(seq_views(parts@), 0) == Some(id@),
        r is None ==> scan_from(seq_views(parts@), 0) is None,
{
    let ghost ps = seq_views(parts@);
    let mut i: usize = 0;
    while i < parts.len()
        invariant
            i <= parts.len(),
            ps == seq_views(parts@),
            scan_from(ps, 0) == scan_from(ps, i as int),
        decreases parts.len() - i,
    {
        let off = keyword_offset_at(&parts[i]);
        proof {
            assert(ps[i as int] == parts@[i as int]@);
        }
        if off > 0 {
            if off < parts.len() - i {
                let j = i + off;
                let id = parts[j].clone();
                proof {
                    assert(ps[j as int] == parts@[j as int]@);
                }
                return Some(id);
            } else {
                return None;
            }
        }
        i = i + 1;
    }
    None
}

} // verus!

//! The general properties of the segment scan and of the canonical URL,
//! stated over the spec functions the public contracts use.

use crate::canonical_url;
use crate::path_scan::keyword_offset;
use crate::path_scan::lemma_split_step;
use crate::path_scan::lemma_split_whole;
use crate::path_scan::path_product_id;
use crate::path_scan::scan_from;
use crate::path_scan::split_slash;
use vstd::prelude::*;

verus! {

/// Segments without a keyword are skipped: the scan from the start
/// equals the scan from `i` when no keyword stands before `i`.
pub proof fn lemma_scan_skip(parts: Seq<Seq<char>>, i: int)
    requires
        0 <= i <= parts.len(),
        forall|j: int| 0 <= j < i ==> keyword_offset(parts[j]) == 0,
    ensures
        scan_from(parts, 0) == scan_from(parts, i),
    decreases i,
{
    if i > 0 {
        lemma_scan_skip(parts, i - 1);
        assert(scan_from(parts, i - 1) == scan_from(parts, i));
    }
}

/// The first keyword wins and the identifier is the segment at its
/// offset: when no keyword stands before index `i`, the segment at `i`
/// is a keyword, and the offset target is in bounds, the scan returns
/// exactly that target segment. This covers all four patterns: `dp` at
/// offset 1, `gp` and `o` at offset 2, `exec` at offset 3.
pub proof fn lemma_first_keyword_yields_id(parts: Seq<Seq<char>>, i: int)
    requires
        0 <= i < parts.len(),
        forall|j: int| 0 <= j < i ==> keyword_offset(parts[j]) == 0,
        keyword_offset(parts[i]) > 0,
        i + keyword_offset(parts[i]) < parts.len(),
    ensures
        scan_from(parts, 0) == Some(parts[i + keyword_offset(parts[i])]),
{
    lemma_scan_skip(parts, i);
}

/// A truncated pattern aborts the scan: when the first keyword's offset
/// falls past the end of the segments, the scan returns nothing — not
/// an out-of-bounds segment, not an empty identifier, and no segment
/// after the keyword is consulted.
pub proof fn lemma_truncated_keyword_aborts(parts: Seq<Seq<char>>, i: int)
    requires
        0 <= i < parts.len(),
        forall|j: int| 0 <= j < i ==> keyword_offset(parts[j]) == 0,
        keyword_offset(parts[i]) > 0,
        i + keyword_offset(parts[i]) >= parts.len(),
    ensures
        scan_from(parts, 0) is None,
{
    lemma_scan_skip(parts, i);
}

/// A path without any keyword segment yields nothing.
pub proof fn lemma_no_keyword_not_found(parts: Seq<Seq<char>>)
    requires
        forall|j: int| 0 <= j < parts.len() ==> keyword_offset(parts[j]) == 0,
    ensures
        scan_from(parts, 0) is None,
{
    lemma_scan_skip(parts, parts.len() as int);
}

/// Building the canonical URL is idempotent: the canonical URL's path
/// is `/dp/<id>`, extracting from that path returns exactly `id`, and
/// rebuilding from the extracted identifier yields the identical
/// string. An identifier that itself contains a `'/'` would be cut at
/// that slash by the splitter, so it is left out.
pub proof fn lemma_canonical_round_trip(scheme: Seq<char>, host: Seq<char>, id: Seq<char>)
    requires
        !id.contains('/'),
    ensures
        path_product_id("/dp/"@ + id) == Some(id),
        canonical_url(scheme, host, path_product_id("/dp/"@ + id)->Some_0) == canonical_url(
            scheme,
            host,
            id,
        ),
{
    reveal_strlit("/dp/");
    reveal_strlit("dp");
    reveal_strlit("gp");
    reveal_strlit("o");
    reveal_strlit("exec");
    let s = "/dp/"@ + id;
    assert(s[0] == '/');
    lemma_split_step(s, 0);
    let t1 = s.subrange(1, s.len() as int);
    assert(t1[0] == 'd' && t1[1] == 'p' && t1[2] == '/');
    lemma_split_step(t1, 2);
    let t2 = t1.subrange(3, t1.len() as int);
    assert forall|j: int| 0 <= j < t2.len() implies t2[j] != '/' by {
        assert(t2[j] == id[j]);
        if id[j] == '/' {
            assert(id.contains('/'));
        }
    }
    lemma_split_whole(t2);
    assert(s.subrange(0, 0) =~= Seq::<char>::empty());
    assert(t1.subrange(0, 2) =~= "dp"@);
    assert(t2 =~= id);
    let parts = split_slash(s);
    assert(parts =~= seq![Seq::<char>::empty(), "dp"@, id]);
    assert(keyword_offset(parts[0]) == 0);
    assert(keyword_offset(parts[1]) == 1);
    assert(scan_from(parts, 0) == scan_from(parts, 1));
    assert(scan_from(parts, 1) == Some(id));
}

} // verus!

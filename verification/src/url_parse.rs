//! The boundary to the `url` crate: parsing the raw input string and
//! reading the path of the parsed URL.

use vstd::prelude::*;

verus! {

/// What parsing a raw URL string yields: the parsed URL's path (the
/// part between authority and query/fragment, so queries and fragments
/// never reach the segment scan), or the parser's diagnostic message.
/// `url::Url::parse` is deterministic, so this is a function of the
/// input string alone.
pub uninterp spec fn url_parse_spec(raw: Seq<char>) -> Result<Seq<char>, Seq<char>>;

/// Relies on `url::Url::parse` for the parse decision, on `Url::path`
/// for the path (its documentation: the path excludes the query and the
/// fragment), and on `ParseError`'s `Display` for the diagnostic.
#[verifier::external_body]
pub(crate) fn parse_url_path(raw: &str) -> (r: Result<String, String>)
    ensures
        r matches Ok(p) ==> (url_parse_spec(raw@) matches Ok(q) && q == p@),
        r matches Err(m) ==> (url_parse_spec(raw@) matches Err(e) && e == m@),
{
    match url::Url::parse(raw) {
        Ok(u) => Ok(u.path().to_string()),
        Err(e) => Err(e.to_string()),
    }
}

} // verus!

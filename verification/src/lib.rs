//! Extracts the product identifier out of an Amazon product URL and
//! builds the shortened canonical `scheme://host/dp/<id>` URL.
//!
//! Four path shapes carry the identifier: `.../dp/<id>`,
//! `.../gp/product/<id>`, `.../o/ASIN/<id>` and
//! `.../exec/obidos/asin/<id>`. The path's segments are scanned in
//! order, the first keyword wins, and the identifier is the segment at
//! the keyword's fixed offset.

pub mod laws;
pub mod path_scan;
pub mod url_parse;

use crate::path_scan::find_product_id;
use crate::path_scan::path_product_id;
use crate::path_scan::split_segments;
use crate::url_parse::parse_url_path;
use crate::url_parse::url_parse_spec;
use vstd::prelude::*;

verus! {

/// The product identifier the raw input string carries: `None` when the
/// string does not parse as a URL, or when its path's segments hold no
/// recognized keyword with an identifier in bounds.
pub open spec fn product_id_spec(raw: Seq<char>) -> Option<Seq<char>> {
    match url_parse_spec(raw) {
        Ok(path) => path_product_id(path),
        Err(_) => None,
    }
}

/// Returns the product identifier embedded in `url`'s path, or `None`
/// if `url` does not parse or no recognized pattern is present.
pub fn get_product_id(url: &str) -> (r: Option<String>)
    ensures
        r matches Some(id) ==> product_id_spec(url@) == Some(id@),
        r is None ==> product_id_spec(url@) is None,
{
    match parse_url_path(url) {
        Ok(path) => {
            let segments = split_segments(path.as_str());
            find_product_id(&segments)
        },
        Err(_) => None,
    }
}

/// The outcome of one extraction: the identifier, a parse failure with
/// the parser's diagnostic, or a parsed URL with no recognized pattern.
#[derive(Debug, Clone, PartialEq, Eq)]
pub enum Extraction {
    Identifier(String),
    InvalidUrl(String),
    NotFound,
}

/// Runs one extraction on an arbitrary input string. The three outcomes
/// are exhaustive: `InvalidUrl` exactly when the string does not parse
/// as a URL, `Identifier` exactly when the parsed path yields one, and
/// `NotFound` for a parsed URL whose path yields none.
pub fn extract(raw: &str) -> (r: Extraction)
    ensures
        r is InvalidUrl <==> url_parse_spec(raw@) is Err,
        r is Identifier <==> product_id_spec(raw@) is Some,
        r matches Extraction::Identifier(id) ==> product_id_spec(raw@) == Some(id@),
        r matches Extraction::InvalidUrl(m) ==> (url_parse_spec(raw@) matches Err(e) && e
            == m@),
        r is NotFound ==> url_parse_spec(raw@) is Ok && product_id_spec(raw@) is None,
{
    match parse_url_path(raw) {
        Ok(path) => {
            let segments = split_segments(path.as_str());
            match find_product_id(&segments) {
                Some(id) => Extraction::Identifier(id),
                None => Extraction::NotFound,
            }
        },
        Err(m) => Extraction::InvalidUrl(m),
    }
}

/// The canonical shortened URL: `scheme://host/dp/<id>`.
pub open spec fn canonical_url(scheme: Seq<char>, host: Seq<char>, id: Seq<char>) -> Seq<char> {
    scheme + "://"@ + host + "/dp/"@ + id
}

/// Builds the canonical shortened URL by plain concatenation.
/// The identifier is emitted verbatim, with no escaping or normalization.
pub fn build_short_url(scheme: &str, host: &str, id: &str) -> (r: String)
    requires
        scheme@.len() > 0,
        host@.len() > 0,
    ensures
        r@ == canonical_url(scheme@, host@, id@),
{
    let mut out = String::from_str(scheme);
    out.append("://");
    out.append(host);
    out.append("/dp/");
    out.append(id);
    assert(out@ =~= canonical_url(scheme@, host@, id@));
    out
}

} // verus!

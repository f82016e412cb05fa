use amazon_url_shortener::build_short_url;
use amazon_url_shortener::extract;
use amazon_url_shortener::get_product_id;
use amazon_url_shortener::Extraction;

#[test]
fn test_get_product_id_dp() {
    let url = "https://www.amazon.co.jp/dp/B01N9KXH9E";
    assert_eq!(get_product_id(url), Some("B01N9KXH9E".to_string()));
}

#[test]
fn test_get_product_id_dp_with_extra_stuff() {
    let url = "https://www.amazon.co.jp/Comomed-%E3%83%AD%E3%83%BC%E3%83%AB%E8%87%AA%E5%B7%B1%E7%B2%98%E7%9D%80%E5%8C%85%E5%B8%AF%E7%99%BD-5cm-4-5-%E5%BC%BE%E6%80%A7%E5%8C%85%E5%B8%AF%E3%80%81%E4%B8%8D%E7%B9%94%E5%B8%83%E3%80%81%E3%82%B9%E3%83%9D%E3%83%BC%E3%83%84%E3%83%86%E3%83%BC%E3%83%97%E3%80%81%E7%8D%A3%E5%8C%BB%E5%8C%85%E8%A3%85%E3%80%81%E5%8C%85%E5%B8%AF%E5%8C%85%E5%B8%AF%E3%80%81%E6%95%8F%E6%84%9F%E8%82%8C%E3%81%AB%E9%81%A9%E3%81%97%E3%81%A6%E3%81%84%E3%81%BE%E3%81%99%E3%80%82/dp/B07DVHW5QD/ref=sr_1_1_sspa?dib=eyJ2IjoiMSJ9.WJ3pdApniFZc9dR5oLkjieQhitNIeI_JnK-LBk7R1Rcz6Vvza4f8irbDEKCj4lnJaJ6JMKNIQWFqizyTCRUHGipHK6uk1OsTAK43sZMiNj6p-_aYystOXhBEhKt4NfAf9LgAOs-49EW0I0cLqUN7-SqjB_JtLLD2j0oIid2bk97CY16YJOzcR344VXXc-WOwmhaIa9K8fVtQZato6DNaBoHNDsMPKWm1HdbboUofL8pvIW0h2hI3TueyAqusC95WRFU02vgasqxM8_iWORYz1nC4zUfCLwrMsjtpAXQGvHQ.Yo3JEW1BJJOU9FJpDUS2SjigvNbYimbp4284WQmy1qc&dib_tag=se&keywords=%E5%8C%85%E5%B8%AF&qid=1716426773&sr=8-1-spons&sp_csd=d2lkZ2V0TmFtZT1zcF9hdGY&psc=1";
    assert_eq!(get_product_id(url), Some("B07DVHW5QD".to_string()));
}

#[test]
fn test_get_product_id_gp() {
    let url = "https://www.amazon.co.jp/gp/product/B01N9KXH9E";
    assert_eq!(get_product_id(url), Some("B01N9KXH9E".to_string()));
}

#[test]
fn test_get_product_id_gp_with_extra_stuff() {
    let url = "https://www.amazon.co.jp/gp/product/B099J7WNV2/ref=ox_sc_saved_image_2?smid=A22RFVFOGUYRPO&psc=1";
    assert_eq!(get_product_id(url), Some("B099J7WNV2".to_string()));
}

#[test]
fn test_get_product_id_exec() {
    let url = "https://www.amazon.co.jp/exec/obidos/asin/B01N9KXH9E";
    assert_eq!(get_product_id(url), Some("B01N9KXH9E".to_string()));
}

#[test]
fn test_get_product_id_o() {
    let url = "https://www.amazon.co.jp/o/ASIN/B01N9KXH9E";
    assert_eq!(get_product_id(url), Some("B01N9KXH9E".to_string()));
}

#[test]
fn malformed_input_is_invalid_url_not_not_found() {
    match extract("not a url") {
        Extraction::InvalidUrl(reason) => assert!(!reason.is_empty()),
        other => panic!("expected InvalidUrl, got {:?}", other),
    }
}

#[test]
fn valid_url_without_keyword_is_not_found() {
    assert_eq!(extract("https://example.com/about"), Extraction::NotFound);
    assert_eq!(get_product_id("https://example.com/about"), None);
}

#[test]
fn truncated_dp_is_not_found() {
    assert_eq!(extract("https://host/dp"), Extraction::NotFound);
    assert_eq!(get_product_id("https://host/dp"), None);
}

#[test]
fn truncated_gp_is_not_found() {
    assert_eq!(get_product_id("https://host/gp/product"), None);
}

#[test]
fn truncated_keyword_aborts_instead_of_scanning_on() {
    // `exec` is found first; its offset falls past the end, and the
    // later `dp` (which would fit) is never consulted.
    assert_eq!(get_product_id("https://host/exec/dp/X"), None);
}

#[test]
fn first_keyword_wins_over_a_later_one() {
    assert_eq!(
        get_product_id("https://host/gp/product/FIRST/dp/SECOND"),
        Some("FIRST".to_string())
    );
}

#[test]
fn query_and_fragment_are_ignored() {
    assert_eq!(get_product_id("https://example.com/about?x=/dp/Z"), None);
    assert_eq!(get_product_id("https://example.com/about#/dp/Z"), None);
}

#[test]
fn keyword_matching_is_case_sensitive() {
    assert_eq!(get_product_id("https://host/DP/X"), None);
    assert_eq!(get_product_id("https://host/O/ASIN/X"), None);
}

#[test]
fn o_pattern_is_positional_not_content_checked() {
    // The segment between `o` and the identifier is not inspected.
    assert_eq!(get_product_id("https://host/o/anything/X"), Some("X".to_string()));
}

#[test]
fn empty_segment_at_offset_is_returned_verbatim() {
    assert_eq!(get_product_id("https://host/dp//x"), Some("".to_string()));
}

#[test]
fn build_short_url_exact_value() {
    assert_eq!(
        build_short_url("https", "www.amazon.co.jp", "B01N9KXH9E"),
        "https://www.amazon.co.jp/dp/B01N9KXH9E".to_string()
    );
}

#[test]
fn canonical_url_round_trips_to_identical_string() {
    let canonical = "https://www.amazon.co.jp/dp/B01N9KXH9E";
    let id = get_product_id(canonical).unwrap();
    let parsed = url::Url::parse(canonical).unwrap();
    let rebuilt = build_short_url(parsed.scheme(), parsed.host_str().unwrap(), &id);
    assert_eq!(rebuilt, canonical.to_string());
}

#[test]
fn extract_agrees_with_get_product_id_on_success() {
    let url = "https://www.amazon.co.jp/dp/B01N9KXH9E";
    match extract(url) {
        Extraction::Identifier(id) => assert_eq!(Some(id), get_product_id(url)),
        other => panic!("expected Identifier, got {:?}", other),
    }
}

use jacket_finder::identity::{compute_identity, listing_identity};
use jacket_finder::text::{contains_str, count_occurrences_str, replace_all_str, starts_with_str, str_eq, trim_str};
use jacket_finder::urls::{canonicalize_url, normalize_image_url, render_search_url, resolve_href_str, strip_query_str};

#[test]
fn identity_exact_digest() {
    let id = compute_identity("Marrkt", "https://www.marrkt.com/products/n-1-deck-jacket");
    assert_eq!(id, "d07ad40a7ef34ec57cb88225f10dbca5");
    assert_eq!(id.len(), 32);
}

#[test]
fn identity_deterministic() {
    let a = compute_identity("Marrkt", "https://www.marrkt.com/products/x");
    let b = compute_identity("Marrkt", "https://www.marrkt.com/products/x");
    assert_eq!(a, b);
    assert_eq!(a, "3a615cff4a731a4c2b6c96913d95d6e4");
}

#[test]
fn identity_ignores_query_string() {
    let plain = listing_identity("Marrkt", "https://www.marrkt.com/products/x");
    let with_query = listing_identity("Marrkt", "https://www.marrkt.com/products/x?variant=42&ref=feed");
    assert_eq!(plain, with_query);
    assert_eq!(plain, "3a615cff4a731a4c2b6c96913d95d6e4");
}

#[test]
fn identity_depends_on_site_name() {
    let a = compute_identity("Marrkt", "https://a.example/p1");
    let b = compute_identity("SiteA", "https://a.example/p1");
    assert_ne!(a, b);
    assert_eq!(b, "cef8ef4004e199f327d130983c221b50");
}

#[test]
fn strip_query_cases() {
    assert_eq!(strip_query_str("https://x.example/p?a=1"), "https://x.example/p");
    assert_eq!(strip_query_str("https://x.example/p"), "https://x.example/p");
    assert_eq!(strip_query_str("?a=1"), "");
    assert_eq!(strip_query_str(""), "");
    assert_eq!(strip_query_str("a?b?c"), "a");
}

#[test]
fn resolve_and_canonicalize() {
    assert_eq!(
        resolve_href_str("https://s.example", "/products/a"),
        "https://s.example/products/a"
    );
    assert_eq!(
        resolve_href_str("https://s.example", "https://other.example/b"),
        "https://other.example/b"
    );
    assert_eq!(
        canonicalize_url("https://s.example", "/products/a?variant=1"),
        "https://s.example/products/a"
    );
}

#[test]
fn image_normalization_cases() {
    assert_eq!(
        normalize_image_url("https://s.example", "//cdn.x/y.jpg"),
        "https://cdn.x/y.jpg"
    );
    assert_eq!(normalize_image_url("https://s.example", "/y.jpg"), "https://s.example/y.jpg");
    assert_eq!(
        normalize_image_url("https://s.example", "https://cdn.x/y_{width}.jpg"),
        "https://cdn.x/y_800.jpg"
    );
}

#[test]
fn search_url_percent_encodes_term() {
    let url = render_search_url("https://www.marrkt.com/search?q={query}", "n-1 deck jacket");
    assert_eq!(url, "https://www.marrkt.com/search?q=n-1%20deck%20jacket");
}

#[test]
fn text_utilities() {
    assert!(contains_str("hello deck jacket", "deck"));
    assert!(!contains_str("hello", "deck"));
    assert!(contains_str("abc", ""));
    assert!(starts_with_str("https://x", "http"));
    assert!(!starts_with_str("ftp://x", "http"));
    assert_eq!(trim_str("  a b \t"), "a b");
    assert_eq!(trim_str(" \n "), "");
    // Unicode whitespace counts too: non-breaking and ideographic spaces.
    assert_eq!(trim_str("\u{a0}a b\u{3000}"), "a b");
    assert_eq!(replace_all_str("a_{width}_b_{width}", "{width}", "800"), "a_800_b_800");
    assert_eq!(count_occurrences_str("{query} and {query}", "{query}"), 2);
    assert!(str_eq("abc", "abc"));
    assert!(!str_eq("abc", "abd"));
}

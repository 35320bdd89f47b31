use jacket_finder::config::{ScraperConfig, SiteSelectors};
use jacket_finder::extract::{PageData, process_page};
use jacket_finder::markup::compile_selectors;
use jacket_finder::session::SearchSession;

fn test_config(terms: &[&str]) -> ScraperConfig {
    ScraperConfig {
        name: "TestSite".to_string(),
        base_url: "https://s.example".to_string(),
        search_url_pattern: "https://s.example/search?q={query}".to_string(),
        selectors: SiteSelectors {
            product_container: ".product-card-wrapper".to_string(),
            title: ".product-title a".to_string(),
            price: ".product-price".to_string(),
            brand: Some(".card-subtitle".to_string()),
            link: ".product-card a".to_string(),
            image: ".product-image".to_string(),
            pagination_container: "ul.pagination".to_string(),
            pagination_next: "a.next".to_string(),
            sold_out_indicator: Some(".availability".to_string()),
        },
        search_terms: terms.iter().map(|t| t.to_string()).collect(),
    }
}

fn product_card(href: &str, brand: &str, title: &str, price: &str, image: &str, note: &str) -> String {
    format!(
        "<div class=\"product-card-wrapper\">\
         <div class=\"product-card\"><a href=\"{}\"></a></div>\
         <p class=\"card-subtitle\">{}</p>\
         <h6 class=\"product-title\"><a href=\"{}\">{}</a></h6>\
         <span class=\"product-price\">{}</span>\
         <img class=\"product-image\" src=\"{}\"/>\
         <p class=\"availability\">{}</p>\
         </div>",
        href, brand, href, title, price, image, note
    )
}

fn page(cards: &[String], next_href: Option<&str>) -> String {
    let pagination = match next_href {
        Some(h) => format!("<ul class=\"pagination\"><li><a class=\"next\" href=\"{}\">Next</a></li></ul>", h),
        None => String::new(),
    };
    format!("<html><body>{}{}</body></html>", cards.join(""), pagination)
}

#[test]
fn process_page_extracts_and_finds_next() {
    let cfg = test_config(&["deck jacket"]);
    let sels = compile_selectors(&cfg.selectors).expect("selectors compile");
    let html = page(
        &[
            product_card("/p/a?v=1", "Buzz Rickson", "N-1 Deck Jacket", "\u{20ac}349", "/img/a.jpg", "In Stock"),
            product_card("/p/b", "Other", "Linen Shirt", "\u{20ac}10", "/img/b.jpg", "In Stock"),
            product_card("/p/c", "Iron Heart", "Deck Jacket Navy", "\u{20ac}500", "//cdn.x/c_{width}.jpg", "Sold Out"),
        ],
        Some("/search?page=2"),
    );
    let pd = process_page(&html, &sels, &cfg, 99);
    assert_eq!(pd.candidates.len(), 1);
    let j = &pd.candidates[0];
    assert_eq!(j.title, "Buzz Rickson - N-1 Deck Jacket");
    assert_eq!(j.url, "https://s.example/p/a");
    assert_eq!(j.price, "\u{20ac}349");
    assert_eq!(j.image_url.as_deref(), Some("https://s.example/img/a.jpg"));
    assert_eq!(j.discovered_at, 99);
    assert_eq!(pd.next_href.as_deref(), Some("https://s.example/search?page=2"));
}

#[test]
fn process_page_without_pagination_has_no_next() {
    let cfg = test_config(&["deck jacket"]);
    let sels = compile_selectors(&cfg.selectors).expect("selectors compile");
    let html = page(&[], None);
    let pd = process_page(&html, &sels, &cfg, 0);
    assert!(pd.candidates.is_empty());
    assert!(pd.next_href.is_none());
}

#[test]
fn session_walks_pages_until_no_next() {
    let cfg = test_config(&["jacket"]);
    let mut s = SearchSession::start(cfg, 50).expect("session starts");
    assert_eq!(
        s.pending_fetch().as_deref(),
        Some("https://s.example/search?q=jacket")
    );
    let p1 = page(
        &[product_card("/p/a", "B", "Jacket A", "1", "/a.jpg", "In Stock")],
        Some("/search?page=2"),
    );
    s.on_page(&p1, 1);
    assert_eq!(s.pending_fetch().as_deref(), Some("https://s.example/search?page=2"));
    let p2 = page(
        &[product_card("/p/b", "B", "Jacket B", "2", "/b.jpg", "In Stock")],
        None,
    );
    s.on_page(&p2, 2);
    assert!(s.pending_fetch().is_none());
    let records = s.into_records();
    assert_eq!(records.len(), 2);
    assert_eq!(records[0].url, "https://s.example/p/a");
    assert_eq!(records[1].url, "https://s.example/p/b");
}

#[test]
fn self_referential_next_stops_after_that_page_exactly() {
    let cfg = test_config(&["jacket"]);
    let mut s = SearchSession::start(cfg, 50).expect("session starts");
    // Page 1 and page 2 point onward; page 3's next link points back to
    // page 3's own URL, so the walk must stop after page 3 — not before
    // it, and without fetching a fourth page.
    let p1 = page(&[product_card("/p/a", "B", "Jacket A", "1", "/a.jpg", "")], Some("/p2"));
    let p2 = page(&[product_card("/p/b", "B", "Jacket B", "2", "/b.jpg", "")], Some("/p3"));
    let p3 = page(&[product_card("/p/c", "B", "Jacket C", "3", "/c.jpg", "")], Some("/p3"));
    s.on_page(&p1, 0);
    assert_eq!(s.pending_fetch().as_deref(), Some("https://s.example/p2"));
    s.on_page(&p2, 0);
    assert_eq!(s.pending_fetch().as_deref(), Some("https://s.example/p3"));
    s.on_page(&p3, 0);
    assert!(s.pending_fetch().is_none());
    assert_eq!(s.into_records().len(), 3);
}

#[test]
fn page_ceiling_stops_the_walk() {
    let cfg = test_config(&["jacket"]);
    let mut s = SearchSession::start(cfg, 2).expect("session starts");
    let p1 = page(&[product_card("/p/a", "B", "Jacket A", "1", "/a.jpg", "")], Some("/p2"));
    s.on_page(&p1, 0);
    assert_eq!(s.pending_fetch().as_deref(), Some("https://s.example/p2"));
    let p2 = page(&[product_card("/p/b", "B", "Jacket B", "2", "/b.jpg", "")], Some("/p3"));
    s.on_page(&p2, 0);
    // The ceiling of two pages is reached: the soft stop ends the term.
    assert!(s.pending_fetch().is_none());
    assert_eq!(s.into_records().len(), 2);
}

#[test]
fn duplicate_urls_keep_first_seen_fields() {
    let cfg = test_config(&["jacket"]);
    let mut s = SearchSession::start(cfg, 50).expect("session starts");
    let p1 = page(
        &[product_card("/p/a?v=1", "B", "Jacket A", "\u{20ac}100", "/a.jpg", "")],
        Some("/p2"),
    );
    let p2 = page(
        &[product_card("/p/a?v=2", "B", "Jacket A", "\u{20ac}200", "/a.jpg", "")],
        None,
    );
    s.on_page(&p1, 0);
    s.on_page(&p2, 0);
    let records = s.into_records();
    assert_eq!(records.len(), 1);
    assert_eq!(records[0].url, "https://s.example/p/a");
    assert_eq!(records[0].price, "\u{20ac}100");
}

#[test]
fn terms_run_in_order_and_share_the_dedup_fold() {
    let cfg = test_config(&["alpha jacket", "beta jacket"]);
    let mut s = SearchSession::start(cfg, 50).expect("session starts");
    assert_eq!(
        s.pending_fetch().as_deref(),
        Some("https://s.example/search?q=alpha%20jacket")
    );
    // The one listing matches both terms; the second term's hit is a
    // duplicate by canonical URL and is discarded.
    let p = page(
        &[product_card("/p/a", "B", "Alpha Beta Jacket", "1", "/a.jpg", "")],
        None,
    );
    s.on_page(&p, 0);
    assert_eq!(
        s.pending_fetch().as_deref(),
        Some("https://s.example/search?q=beta%20jacket")
    );
    s.on_page(&p, 0);
    assert!(s.pending_fetch().is_none());
    assert_eq!(s.into_records().len(), 1);
}

#[test]
fn advance_ends_term_on_self_referential_next() {
    let cfg = test_config(&["jacket"]);
    let mut s = SearchSession::start(cfg, 50).expect("session starts");
    let current = s.pending_fetch().expect("active session has a pending fetch");
    s.advance(PageData { candidates: Vec::new(), next_href: Some(current) });
    assert!(s.pending_fetch().is_none());
}

#[test]
fn advance_follows_a_distinct_next() {
    let cfg = test_config(&["jacket"]);
    let mut s = SearchSession::start(cfg, 50).expect("session starts");
    s.advance(PageData {
        candidates: Vec::new(),
        next_href: Some("https://s.example/search?page=2".to_string()),
    });
    assert_eq!(s.pending_fetch().as_deref(), Some("https://s.example/search?page=2"));
    s.advance(PageData { candidates: Vec::new(), next_href: None });
    assert!(s.pending_fetch().is_none());
}

#[test]
fn empty_terms_are_rejected_at_start() {
    let cfg = test_config(&[]);
    assert!(matches!(
        SearchSession::start(cfg, 50),
        Err(jacket_finder::config::ConfigError::EmptySearchTerms)
    ));
}

#[test]
fn bad_template_is_rejected_at_start() {
    let mut cfg = test_config(&["jacket"]);
    cfg.search_url_pattern = "https://s.example/search".to_string();
    assert!(matches!(
        SearchSession::start(cfg, 50),
        Err(jacket_finder::config::ConfigError::InvalidTemplate)
    ));
    let mut cfg2 = test_config(&["jacket"]);
    cfg2.search_url_pattern = "https://s.example/{query}/{query}".to_string();
    assert!(matches!(
        SearchSession::start(cfg2, 50),
        Err(jacket_finder::config::ConfigError::InvalidTemplate)
    ));
}

#[test]
fn bad_selector_is_rejected_at_start() {
    let mut cfg = test_config(&["jacket"]);
    cfg.selectors.price = "".to_string();
    match SearchSession::start(cfg, 50) {
        Err(jacket_finder::config::ConfigError::InvalidSelector(p)) => {
            assert_eq!(p, "");
        }
        other => panic!("expected an invalid-selector error, got {:?}", other.map(|_| ())),
    }
}

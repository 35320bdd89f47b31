use jacket_finder::config::{
    DEFAULT_MAX_PAGES, MarrktScraper, Options, Scraper, SiteScraper, registry, user_agent,
};
use jacket_finder::models::Jacket;
use jacket_finder::notify::build_notification_message;

#[test]
fn marrkt_profile_fields() {
    let m = MarrktScraper::new().expect("built-in profile is valid");
    let c = m.config();
    assert_eq!(c.name, "Marrkt");
    assert_eq!(c.base_url, "https://www.marrkt.com");
    assert_eq!(c.search_url_pattern, "https://www.marrkt.com/search?q={query}");
    assert_eq!(c.selectors.product_container, ".product-card-wrapper");
    assert_eq!(c.selectors.brand.as_deref(), Some(".card-subtitle"));
    assert_eq!(c.selectors.sold_out_indicator.as_deref(), Some(".card-body p"));
    assert_eq!(c.search_terms, vec!["n-1 deck jacket", "deck jacket"]);
    assert_eq!(
        c.build_search_url("n-1 deck jacket"),
        "https://www.marrkt.com/search?q=n-1%20deck%20jacket"
    );
}

#[test]
fn registry_holds_one_site() {
    let sites = registry().expect("registry builds");
    assert_eq!(sites.len(), 1);
    let SiteScraper::Marrkt(m) = &sites[0];
    assert_eq!(m.config().name, "Marrkt");
    assert_eq!(sites[0].config().name, "Marrkt");
}

#[test]
fn scraper_default_and_custom_terms() {
    let s = Scraper::new();
    assert_eq!(s.config.search_terms, vec!["n-1 deck jacket", "deck jacket"]);
    let custom = Scraper::with_search_terms(vec!["flight jacket".to_string()]);
    assert_eq!(custom.config.search_terms, vec!["flight jacket"]);
    assert_eq!(custom.config.name, "Marrkt");
}

#[test]
fn options_defaults() {
    let o = Options::new();
    assert!(o.notification_endpoint.is_none());
    assert!(o.search_terms.is_none());
    assert_eq!(o.max_pages, DEFAULT_MAX_PAGES);
    assert_eq!(DEFAULT_MAX_PAGES, 50);
}

#[test]
fn user_agent_identifies_a_browser() {
    assert_eq!(
        user_agent(),
        "Mozilla/5.0 (Macintosh; Intel Mac OS X 10_15_7) AppleWebKit/537.36 (KHTML, like Gecko) Chrome/91.0.4472.124 Safari/537.36"
    );
}

#[test]
fn notification_message_carries_the_record() {
    let j = Jacket {
        id: "abc".to_string(),
        title: "Buzz Rickson - N-1 Deck Jacket".to_string(),
        price: "\u{20ac}349,95".to_string(),
        url: "https://www.marrkt.com/products/n-1".to_string(),
        image_url: Some("https://cdn.marrkt.com/n1.jpg".to_string()),
        discovered_at: 1704110400000,
    };
    let m = build_notification_message(&j);
    assert_eq!(m.embeds.len(), 1);
    let e = &m.embeds[0];
    assert_eq!(e.title, "\u{1f9e5} New N-1 Deck Jacket Found!");
    assert_eq!(e.description, "Buzz Rickson - N-1 Deck Jacket");
    assert_eq!(e.url, "https://www.marrkt.com/products/n-1");
    assert_eq!(e.color, 0x005865F2);
    assert_eq!(e.timestamp, "2024-01-01T12:00:00+00:00");
    assert_eq!(e.thumbnail.as_ref().map(|t| t.url.as_str()), Some("https://cdn.marrkt.com/n1.jpg"));
    assert_eq!(e.image.as_ref().map(|i| i.url.as_str()), Some("https://cdn.marrkt.com/n1.jpg"));
    assert_eq!(e.fields.len(), 2);
    assert_eq!(e.fields[0].name, "Price");
    assert_eq!(e.fields[0].value, "\u{20ac}349,95");
    assert!(e.fields[0].inline);
    assert_eq!(e.fields[1].name, "Link");
    assert_eq!(e.fields[1].value, "[View on Marrkt](https://www.marrkt.com/products/n-1)");
    assert!(e.fields[1].inline);
}

#[test]
fn notification_message_without_image() {
    let j = Jacket {
        id: "abc".to_string(),
        title: "Jacket".to_string(),
        price: "Price not found".to_string(),
        url: "https://www.marrkt.com/p".to_string(),
        image_url: None,
        discovered_at: 0,
    };
    let m = build_notification_message(&j);
    assert!(m.embeds[0].thumbnail.is_none());
    assert!(m.embeds[0].image.is_none());
    assert_eq!(m.embeds[0].timestamp, "1970-01-01T00:00:00+00:00");
}

#[test]
fn notification_timestamp_before_the_epoch() {
    let j = Jacket {
        id: "abc".to_string(),
        title: "Jacket".to_string(),
        price: "Price not found".to_string(),
        url: "https://www.marrkt.com/p".to_string(),
        image_url: None,
        discovered_at: -1000,
    };
    let m = build_notification_message(&j);
    assert_eq!(m.embeds[0].timestamp, "1969-12-31T23:59:59+00:00");
}

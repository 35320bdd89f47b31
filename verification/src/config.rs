//! Per-site configuration: the immutable Site Profile (name, base URL,
//! search template, node selectors, match terms), the runtime options
//! structure, and the built-in profile of the one monitored site.

use vstd::prelude::*;
use vstd::string::StringExecFns;

use crate::text::count_occurrences;
use crate::urls::{render_search_url, search_url};

verus! {

/// Node-selector patterns addressing the parts of a product listing.
#[derive(Debug, Clone)]
pub struct SiteSelectors {
    pub product_container: String,
    pub title: String,
    pub price: String,
    pub brand: Option<String>,
    pub link: String,
    pub image: String,
    pub pagination_container: String,
    pub pagination_next: String,
    pub sold_out_indicator: Option<String>,
}

/// Spec-level image of a [`SiteSelectors`].
#[verifier::ext_equal]
pub struct SiteSelectorsView {
    pub product_container: Seq<char>,
    pub title: Seq<char>,
    pub price: Seq<char>,
    pub brand: Option<Seq<char>>,
    pub link: Seq<char>,
    pub image: Seq<char>,
    pub pagination_container: Seq<char>,
    pub pagination_next: Seq<char>,
    pub sold_out_indicator: Option<Seq<char>>,
}

impl View for SiteSelectors {
    type V = SiteSelectorsView;

    open spec fn view(&self) -> SiteSelectorsView {
        SiteSelectorsView {
            product_container: self.product_container@,
            title: self.title@,
            price: self.price@,
            brand: match self.brand {
                Some(b) => Some(b@),
                None => None,
            },
            link: self.link@,
            image: self.image@,
            pagination_container: self.pagination_container@,
            pagination_next: self.pagination_next@,
            sold_out_indicator: match self.sold_out_indicator {
                Some(s) => Some(s@),
                None => None,
            },
        }
    }
}

/// Immutable per-site configuration, constructed once at startup and
/// shared read-only across all polling cycles.
#[derive(Debug, Clone)]
pub struct ScraperConfig {
    pub name: String,
    pub base_url: String,
    pub search_url_pattern: String,
    pub selectors: SiteSelectors,
    pub search_terms: Vec<String>,
}

/// Spec-level image of a [`ScraperConfig`].
#[verifier::ext_equal]
pub struct ScraperConfigView {
    pub name: Seq<char>,
    pub base_url: Seq<char>,
    pub search_url_pattern: Seq<char>,
    pub selectors: SiteSelectorsView,
    pub search_terms: Seq<Seq<char>>,
}

impl View for ScraperConfig {
    type V = ScraperConfigView;

    open spec fn view(&self) -> ScraperConfigView {
        ScraperConfigView {
            name: self.name@,
            base_url: self.base_url@,
            search_url_pattern: self.search_url_pattern@,
            selectors: self.selectors@,
            search_terms: self.search_terms@.map_values(|t: String| t@),
        }
    }
}

impl ScraperConfig {
    /// Renders the first page's URL for one search term.
    pub fn build_search_url(&self, search_term: &str) -> (r: String)
        ensures
            r@ == search_url(self.search_url_pattern@, search_term@),
    {
        render_search_url(self.search_url_pattern.as_str(), search_term)
    }
}

/// A search template is valid when it holds exactly one `{query}`
/// placeholder.
pub open spec fn template_valid(t: Seq<char>) -> bool {
    count_occurrences(t, "{query}"@) == 1
}

/// A profile's non-selector parts are valid: one placeholder in the
/// template and a non-empty list of match terms.
pub open spec fn profile_fields_valid(c: ScraperConfigView) -> bool {
    template_valid(c.search_url_pattern) && c.search_terms.len() > 0
}

/// A configuration rejected at construction time.
#[derive(Debug, Clone)]
pub enum ConfigError {
    /// A node-selector pattern the markup capability does not accept.
    InvalidSelector(String),
    /// A search template without exactly one `{query}` placeholder.
    InvalidTemplate,
    /// An empty list of match terms.
    EmptySearchTerms,
}

/// Checks the non-selector parts of a profile.
pub fn validate_profile_fields(c: &ScraperConfig) -> (r: Result<(), ConfigError>)
    ensures
        r is Ok <==> profile_fields_valid(c@),
        r matches Err(e) ==> if !template_valid(c@.search_url_pattern) {
            e is InvalidTemplate
        } else {
            e is EmptySearchTerms && c@.search_terms.len() == 0
        },
{
    if count_occurrences_str_is_one(&c.search_url_pattern) {
        if c.search_terms.len() > 0 {
            Ok(())
        } else {
            Err(ConfigError::EmptySearchTerms)
        }
    } else {
        Err(ConfigError::InvalidTemplate)
    }
}

fn count_occurrences_str_is_one(t: &String) -> (r: bool)
    ensures
        r == template_valid(t@),
{
    let n = crate::text::count_occurrences_str(t.as_str(), "{query}");
    n == 1
}

/// The browser identification sent with page requests.
pub fn user_agent() -> (r: &'static str)
    ensures
        r@ == "Mozilla/5.0 (Macintosh; Intel Mac OS X 10_15_7) AppleWebKit/537.36 (KHTML, like Gecko) Chrome/91.0.4472.124 Safari/537.36"@,
{
    "Mozilla/5.0 (Macintosh; Intel Mac OS X 10_15_7) AppleWebKit/537.36 (KHTML, like Gecko) Chrome/91.0.4472.124 Safari/537.36"
}

/// The pagination ceiling used when no other is configured.
pub const DEFAULT_MAX_PAGES: u32 = 50;

/// Runtime options assembled once at process start and passed down.
#[derive(Debug, Clone)]
pub struct Options {
    /// Enables notification delivery when present.
    pub notification_endpoint: Option<String>,
    /// Overrides the profiles' match terms when present.
    pub search_terms: Option<Vec<String>>,
    /// Hard per-term page ceiling for the pagination driver.
    pub max_pages: u32,
}

impl Options {
    /// The default options: no delivery endpoint, the profiles' own match
    /// terms, and the standard page ceiling.
    pub fn new() -> (r: Options)
        ensures
            r.notification_endpoint is None,
            r.search_terms is None,
            r.max_pages == DEFAULT_MAX_PAGES,
    {
        Options { notification_endpoint: None, search_terms: None, max_pages: DEFAULT_MAX_PAGES }
    }
}

/// The spec-level profile of the Marrkt site.
pub open spec fn marrkt_profile() -> ScraperConfigView {
    ScraperConfigView {
        name: "Marrkt"@,
        base_url: "https://www.marrkt.com"@,
        search_url_pattern: "https://www.marrkt.com/search?q={query}"@,
        selectors: SiteSelectorsView {
            product_container: ".product-card-wrapper"@,
            title: ".product-title a, .card-title a"@,
            price: ".product-price-exc-vat"@,
            brand: Some(".card-subtitle"@),
            link: ".product-card a, .card-image a"@,
            image: ".responsive-image__image"@,
            pagination_container: "ul.pagination"@,
            pagination_next: "a.pagination-next"@,
            sold_out_indicator: Some(".card-body p"@),
        },
        search_terms: seq!["n-1 deck jacket"@, "deck jacket"@],
    }
}

/// Builds the executable Marrkt profile with the given match terms.
fn marrkt_config_with_terms(search_terms: Vec<String>) -> (r: ScraperConfig)
    ensures
        r@ == (ScraperConfigView { search_terms: search_terms@.map_values(|t: String| t@), ..marrkt_profile() }),
{
    let r = ScraperConfig {
        name: "Marrkt".to_owned(),
        base_url: "https://www.marrkt.com".to_owned(),
        search_url_pattern: "https://www.marrkt.com/search?q={query}".to_owned(),
        selectors: SiteSelectors {
            product_container: ".product-card-wrapper".to_owned(),
            title: ".product-title a, .card-title a".to_owned(),
            price: ".product-price-exc-vat".to_owned(),
            brand: Some(".card-subtitle".to_owned()),
            link: ".product-card a, .card-image a".to_owned(),
            image: ".responsive-image__image".to_owned(),
            pagination_container: "ul.pagination".to_owned(),
            pagination_next: "a.pagination-next".to_owned(),
            sold_out_indicator: Some(".card-body p".to_owned()),
        },
        search_terms,
    };
    proof {
        assert(r@.selectors =~= (ScraperConfigView {
            search_terms: r.search_terms@.map_values(|t: String| t@),
            ..marrkt_profile()
        }).selectors);
        assert(r@ =~= (ScraperConfigView {
            search_terms: r.search_terms@.map_values(|t: String| t@),
            ..marrkt_profile()
        }));
    }
    r
}

fn default_search_terms() -> (r: Vec<String>)
    ensures
        r@.map_values(|t: String| t@) =~= marrkt_profile().search_terms,
{
    let mut terms: Vec<String> = Vec::new();
    terms.push("n-1 deck jacket".to_owned());
    terms.push("deck jacket".to_owned());
    proof {
        assert(terms@.map_values(|t: String| t@) =~= seq!["n-1 deck jacket"@, "deck jacket"@]);
    }
    terms
}

/// The scraper for the Marrkt site: its profile, validated at
/// construction.
#[derive(Debug, Clone)]
pub struct MarrktScraper {
    pub config: ScraperConfig,
}

impl MarrktScraper {
    /// Builds the Marrkt scraper with its built-in profile, checking the
    /// selector patterns, the search template and the match terms; a
    /// malformed profile is fatal here, never mid-run.
    pub fn new() -> (r: Result<MarrktScraper, ConfigError>)
        ensures
            r matches Ok(m) ==> m.config@ == marrkt_profile(),
            r is Ok <==> profile_fields_valid(marrkt_profile()) && crate::markup::selectors_ok(
                marrkt_profile().selectors,
            ),
            r matches Err(e) ==> {
                ||| e is InvalidTemplate && !template_valid(marrkt_profile().search_url_pattern)
                ||| e is EmptySearchTerms && marrkt_profile().search_terms.len() == 0
                ||| (e matches ConfigError::InvalidSelector(p) && !crate::markup::selector_ok(p@))
            },
    {
        let config = marrkt_config_with_terms(default_search_terms());
        proof {
            assert(config@ =~= marrkt_profile());
        }
        match validate_profile_fields(&config) {
            Ok(()) => {},
            Err(e) => {
                return Err(e);
            },
        }
        match crate::markup::compile_selectors(&config.selectors) {
            Ok(_) => {},
            Err(e) => {
                return Err(e);
            },
        }
        Ok(MarrktScraper { config })
    }

    /// The scraper's profile.
    pub fn config(&self) -> (r: &ScraperConfig)
        ensures
            r == self.config,
    {
        &self.config
    }
}

/// A scraper handle over the built-in profile with configurable match
/// terms.
#[derive(Debug, Clone)]
pub struct Scraper {
    pub config: ScraperConfig,
}

impl Scraper {
    /// A scraper over the built-in profile with its default match terms.
    pub fn new() -> (r: Scraper)
        ensures
            r.config@ == marrkt_profile(),
    {
        let r = Scraper { config: marrkt_config_with_terms(default_search_terms()) };
        proof {
            assert(r.config@ =~= marrkt_profile());
        }
        r
    }

    /// A scraper over the built-in profile with the given match terms.
    pub fn with_search_terms(search_terms: Vec<String>) -> (r: Scraper)
        ensures
            r.config@ == (ScraperConfigView {
                search_terms: search_terms@.map_values(|t: String| t@),
                ..marrkt_profile()
            }),
    {
        Scraper { config: marrkt_config_with_terms(search_terms) }
    }
}

/// The contract type over the monitored sites: one variant per site, held
/// in a homogeneous ordered collection; adding a site is a data addition,
/// never a new code path.
#[derive(Debug, Clone)]
pub enum SiteScraper {
    Marrkt(MarrktScraper),
}

impl SiteScraper {
    /// The profile of the site this scraper addresses.
    pub fn config(&self) -> (r: &ScraperConfig)
        ensures
            self matches SiteScraper::Marrkt(m) ==> r == m.config,
    {
        match self {
            SiteScraper::Marrkt(m) => m.config(),
        }
    }
}

/// The registry of monitored sites, in the order the coordinator visits
/// them.
pub fn registry() -> (r: Result<Vec<SiteScraper>, ConfigError>)
    ensures
        r is Ok <==> profile_fields_valid(marrkt_profile()) && crate::markup::selectors_ok(
            marrkt_profile().selectors,
        ),
        r matches Ok(v) ==> v@.len() == 1 && (v@[0] matches SiteScraper::Marrkt(m) && m.config@
            == marrkt_profile()),
        r matches Err(e) ==> {
            ||| e is InvalidTemplate && !template_valid(marrkt_profile().search_url_pattern)
            ||| e is EmptySearchTerms && marrkt_profile().search_terms.len() == 0
            ||| (e matches ConfigError::InvalidSelector(p) && !crate::markup::selector_ok(p@))
        },
{
    let m = match MarrktScraper::new() {
        Ok(m) => m,
        Err(e) => {
            return Err(e);
        },
    };
    let mut v: Vec<SiteScraper> = Vec::new();
    v.push(SiteScraper::Marrkt(m));
    Ok(v)
}

} // verus!

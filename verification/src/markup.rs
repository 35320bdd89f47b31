//! Trusted boundary to the HTML capability: parsing markup into a
//! queryable tree and selecting nodes by a pattern, supplied by the
//! `scraper` crate. The tree and its nodes are opaque here; everything
//! the extraction logic reads comes back as plain strings.

use vstd::prelude::*;

use crate::config::{ConfigError, SiteSelectors};
use crate::extract::RawListing;
use crate::urls::{resolve_href, resolve_href_str};

verus! {

#[verifier::external_type_specification]
#[verifier::external_body]
pub struct ExHtml(scraper::Html);

#[verifier::external_type_specification]
#[verifier::external_body]
pub struct ExSelector(scraper::Selector);

#[verifier::external_type_specification]
#[verifier::external_body]
pub struct ExElementRef<'a>(scraper::ElementRef<'a>);

/// Names whether `scraper::Selector::parse` accepts a pattern; validity
/// depends on the pattern text alone.
pub uninterp spec fn selector_ok(pattern: Seq<char>) -> bool;

/// Relies on `scraper::Selector::parse`: compiles a selector pattern,
/// succeeding exactly on the patterns the crate accepts.
#[verifier::external_body]
fn parse_selector(pattern: &str) -> (r: Option<scraper::Selector>)
    ensures
        r is Some <==> selector_ok(pattern@),
{
    scraper::Selector::parse(pattern).ok()
}

/// Relies on `scraper::Html::parse_document`: parses markup into a
/// queryable tree.
#[verifier::external_body]
pub fn parse_document(html: &str) -> (r: scraper::Html) {
    scraper::Html::parse_document(html)
}

/// Relies on `scraper::Html::select`: all elements of the document that
/// match the selector, in tree order.
#[verifier::external_body]
fn select_in_document<'a>(doc: &'a scraper::Html, sel: &scraper::Selector) -> (r: Vec<
    scraper::ElementRef<'a>,
>) {
    doc.select(sel).collect()
}

/// Relies on `scraper::Html::select`: the first element of the document
/// that matches the selector, if any.
#[verifier::external_body]
fn first_in_document<'a>(doc: &'a scraper::Html, sel: &scraper::Selector) -> (r: Option<
    scraper::ElementRef<'a>,
>) {
    doc.select(sel).next()
}

/// Relies on `scraper::ElementRef::select`: all descendant elements that
/// match the selector, in tree order.
#[verifier::external_body]
fn select_in_element<'a>(el: &scraper::ElementRef<'a>, sel: &scraper::Selector) -> (r: Vec<
    scraper::ElementRef<'a>,
>) {
    el.select(sel).collect()
}

/// Relies on `scraper::ElementRef::select`: the first descendant element
/// that matches the selector, if any.
#[verifier::external_body]
fn first_in_element<'a>(el: &scraper::ElementRef<'a>, sel: &scraper::Selector) -> (r: Option<
    scraper::ElementRef<'a>,
>) {
    el.select(sel).next()
}

/// Relies on `scraper::ElementRef::attr`: the value of the named
/// attribute, if the element has it.
#[verifier::external_body]
fn attr_of<'a>(el: &scraper::ElementRef<'a>, name: &str) -> (r: Option<String>) {
    el.attr(name).map(|a| a.to_string())
}

/// Relies on `scraper::ElementRef::text`: the concatenation of the
/// element's descendant text nodes.
#[verifier::external_body]
fn text_of<'a>(el: &scraper::ElementRef<'a>) -> (r: String) {
    el.text().collect::<String>()
}

/// The compiled form of a site's selector set.
pub struct CompiledSelectors {
    pub product_container: scraper::Selector,
    pub title: scraper::Selector,
    pub price: scraper::Selector,
    pub brand: Option<scraper::Selector>,
    pub link: scraper::Selector,
    pub image: scraper::Selector,
    pub pagination_container: scraper::Selector,
    pub pagination_next: scraper::Selector,
    pub sold_out: Option<scraper::Selector>,
}

/// Every configured selector pattern of the set is valid.
pub open spec fn selectors_ok(s: crate::config::SiteSelectorsView) -> bool {
    &&& selector_ok(s.product_container)
    &&& selector_ok(s.title)
    &&& selector_ok(s.price)
    &&& (s.brand matches Some(b) ==> selector_ok(b))
    &&& selector_ok(s.link)
    &&& selector_ok(s.image)
    &&& selector_ok(s.pagination_container)
    &&& selector_ok(s.pagination_next)
    &&& (s.sold_out_indicator matches Some(p) ==> selector_ok(p))
}

fn compile_one(pattern: &String) -> (r: Result<scraper::Selector, ConfigError>)
    ensures
        r is Ok <==> selector_ok(pattern@),
        r matches Err(e) ==> e matches ConfigError::InvalidSelector(p) && p@ == pattern@
            && !selector_ok(p@),
{
    match parse_selector(pattern.as_str()) {
        Some(s) => Ok(s),
        None => Err(ConfigError::InvalidSelector(pattern.clone())),
    }
}

fn compile_optional(pattern: &Option<String>) -> (r: Result<
    Option<scraper::Selector>,
    ConfigError,
>)
    ensures
        r is Ok <==> (pattern matches Some(p) ==> selector_ok(p@)),
        r matches Ok(s) ==> (s is Some <==> pattern is Some),
        r matches Err(e) ==> e matches ConfigError::InvalidSelector(p) && pattern matches Some(q)
            && p@ == q@ && !selector_ok(p@),
{
    match pattern {
        Some(p) => match compile_one(p) {
            Ok(s) => Ok(Some(s)),
            Err(e) => Err(e),
        },
        None => Ok(None),
    }
}

/// Compiles a site's selector patterns, failing on the first malformed
/// one; a malformed pattern is a configuration error, fatal at
/// construction time, never a per-page failure.
pub fn compile_selectors(s: &SiteSelectors) -> (r: Result<CompiledSelectors, ConfigError>)
    ensures
        r is Ok <==> selectors_ok(s@),
        r matches Err(e) ==> e matches ConfigError::InvalidSelector(p) && !selector_ok(p@),
{
    let product_container = match compile_one(&s.product_container) {
        Ok(v) => v,
        Err(e) => {
            return Err(e);
        },
    };
    let title = match compile_one(&s.title) {
        Ok(v) => v,
        Err(e) => {
            return Err(e);
        },
    };
    let price = match compile_one(&s.price) {
        Ok(v) => v,
        Err(e) => {
            return Err(e);
        },
    };
    let brand = match compile_optional(&s.brand) {
        Ok(v) => v,
        Err(e) => {
            return Err(e);
        },
    };
    let link = match compile_one(&s.link) {
        Ok(v) => v,
        Err(e) => {
            return Err(e);
        },
    };
    let image = match compile_one(&s.image) {
        Ok(v) => v,
        Err(e) => {
            return Err(e);
        },
    };
    let pagination_container = match compile_one(&s.pagination_container) {
        Ok(v) => v,
        Err(e) => {
            return Err(e);
        },
    };
    let pagination_next = match compile_one(&s.pagination_next) {
        Ok(v) => v,
        Err(e) => {
            return Err(e);
        },
    };
    let sold_out = match compile_optional(&s.sold_out_indicator) {
        Ok(v) => v,
        Err(e) => {
            return Err(e);
        },
    };
    Ok(
        CompiledSelectors {
            product_container,
            title,
            price,
            brand,
            link,
            image,
            pagination_container,
            pagination_next,
            sold_out,
        },
    )
}

fn text_of_first<'a>(el: &scraper::ElementRef<'a>, sel: &scraper::Selector) -> Option<String> {
    match first_in_element(el, sel) {
        Some(n) => Some(text_of(&n)),
        None => None,
    }
}

fn texts_of_all<'a>(el: &scraper::ElementRef<'a>, sel: &scraper::Selector) -> Vec<String> {
    let nodes = select_in_element(el, sel);
    let mut texts: Vec<String> = Vec::new();
    let mut i: usize = 0;
    while i < nodes.len()
        decreases nodes.len() - i,
    {
        texts.push(text_of(&nodes[i]));
        i += 1;
    }
    texts
}

fn raw_of_element<'a>(el: &scraper::ElementRef<'a>, sels: &CompiledSelectors) -> RawListing {
    let link_href = match first_in_element(el, &sels.link) {
        Some(l) => attr_of(&l, "href"),
        None => None,
    };
    let title_text = text_of_first(el, &sels.title);
    let brand_text = match &sels.brand {
        Some(b) => text_of_first(el, b),
        None => None,
    };
    let price_text = text_of_first(el, &sels.price);
    let (image_lazy, image_src) = match first_in_element(el, &sels.image) {
        Some(img) => (attr_of(&img, "data-src"), attr_of(&img, "src")),
        None => (None, None),
    };
    let sold_out_texts = match &sels.sold_out {
        Some(s) => texts_of_all(el, s),
        None => Vec::new(),
    };
    RawListing {
        link_href,
        title_text,
        brand_text,
        price_text,
        image_lazy,
        image_src,
        sold_out_texts,
    }
}

/// Reads the raw fields of every product container of one parsed page,
/// in tree order. What the page contains is outside input: nothing is
/// promised of it, and everything downstream is verified for every value
/// it can take.
pub fn collect_page_raws<'a>(doc: &'a scraper::Html, sels: &CompiledSelectors) -> Vec<RawListing> {
    let products = select_in_document(doc, &sels.product_container);
    let mut raws: Vec<RawListing> = Vec::new();
    let mut i: usize = 0;
    while i < products.len()
        decreases products.len() - i,
    {
        raws.push(raw_of_element(&products[i], sels));
        i += 1;
    }
    raws
}

/// Finds the "next page" link: the pagination container's next-node
/// href, resolved to an absolute URL against the base URL.
pub fn extract_next_page_url(
    doc: &scraper::Html,
    sels: &CompiledSelectors,
    base_url: &str,
) -> (r: Option<String>)
    ensures
        r matches Some(u) ==> exists|h: Seq<char>| u@ == resolve_href(base_url@, h),
{
    let pagination = match first_in_document(doc, &sels.pagination_container) {
        Some(p) => p,
        None => {
            return None;
        },
    };
    let next_link = match first_in_element(&pagination, &sels.pagination_next) {
        Some(a) => a,
        None => {
            return None;
        },
    };
    let href = match attr_of(&next_link, "href") {
        Some(h) => h,
        None => {
            return None;
        },
    };
    let u = resolve_href_str(base_url, href.as_str());
    proof {
        assert(u@ == resolve_href(base_url@, href@));
    }
    Some(u)
}

} // verus!

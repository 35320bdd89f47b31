//! The record extractor: turns the raw per-container fields read from one
//! result page into listing records, applying the title rule, the
//! match-term filter, the sold-out filter, price and image normalization,
//! and identity derivation. A pure transform over its inputs.

use vstd::prelude::*;
use vstd::string::StrSliceExecFns;
use vstd::string::StringExecFns;

use crate::config::{ScraperConfig, ScraperConfigView};
use crate::identity::{compute_identity, record_identity};
use crate::models::{Jacket, JacketView};
use crate::text::{contains_seq, contains_str, str_eq, trim_spec, trim_str};
use crate::urls::{canonical_url, canonicalize_url, normalize_image, normalize_image_url};

verus! {

/// Names the result of `str::to_lowercase`.
pub uninterp spec fn lower_of(s: Seq<char>) -> Seq<char>;

/// Relies on `str::to_lowercase`: the lowercase form depends on the
/// characters alone.
#[verifier::external_body]
fn lowercase(s: &str) -> (r: String)
    ensures
        r@ == lower_of(s@),
{
    s.to_lowercase()
}

/// The fields of one product container as the selectors resolve them,
/// before any extraction policy is applied.
#[derive(Debug, Clone)]
pub struct RawListing {
    /// The first link's href, if the container has a link with one.
    pub link_href: Option<String>,
    /// The text of the first title node.
    pub title_text: Option<String>,
    /// The text of the first brand node, when a brand selector is
    /// configured and matches.
    pub brand_text: Option<String>,
    /// The text of the first price node.
    pub price_text: Option<String>,
    /// The image's lazy-load source attribute, preferred over `image_src`.
    pub image_lazy: Option<String>,
    /// The image's standard source attribute.
    pub image_src: Option<String>,
    /// The texts of every sold-out-indicator node; empty when no such
    /// selector is configured.
    pub sold_out_texts: Vec<String>,
}

/// Spec-level image of a [`RawListing`].
#[verifier::ext_equal]
pub struct RawListingView {
    pub link_href: Option<Seq<char>>,
    pub title_text: Option<Seq<char>>,
    pub brand_text: Option<Seq<char>>,
    pub price_text: Option<Seq<char>>,
    pub image_lazy: Option<Seq<char>>,
    pub image_src: Option<Seq<char>>,
    pub sold_out_texts: Seq<Seq<char>>,
}

/// The view of an optional string.
pub open spec fn opt_view(o: Option<String>) -> Option<Seq<char>> {
    match o {
        Some(s) => Some(s@),
        None => None,
    }
}

impl View for RawListing {
    type V = RawListingView;

    open spec fn view(&self) -> RawListingView {
        RawListingView {
            link_href: opt_view(self.link_href),
            title_text: opt_view(self.title_text),
            brand_text: opt_view(self.brand_text),
            price_text: opt_view(self.price_text),
            image_lazy: opt_view(self.image_lazy),
            image_src: opt_view(self.image_src),
            sold_out_texts: self.sold_out_texts@.map_values(|t: String| t@),
        }
    }
}

/// An extracted text, trimmed; the fallback stands in for an absent node
/// and for text that is blank once trimmed.
pub open spec fn clean_or(text: Option<Seq<char>>, fallback: Seq<char>) -> Seq<char> {
    match text {
        Some(t) => {
            if trim_spec(t).len() == 0 {
                fallback
            } else {
                trim_spec(t)
            }
        },
        None => fallback,
    }
}

/// The combined title: `"{brand} - {name}"`, or the bare name when no
/// brand is known.
pub open spec fn title_of(raw: RawListingView) -> Seq<char> {
    let name = clean_or(raw.title_text, "Unknown Item"@);
    let brand = clean_or(raw.brand_text, "Unknown Brand"@);
    if brand == "Unknown Brand"@ {
        name
    } else {
        brand + " - "@ + name
    }
}

/// The title contains at least one configured match term,
/// case-insensitively.
pub open spec fn matches_terms(title: Seq<char>, terms: Seq<Seq<char>>) -> bool {
    exists|i: int|
        0 <= i < terms.len() && contains_seq(lower_of(title), lower_of(terms[i]))
}

/// Some sold-out-indicator node's trimmed text is exactly "Sold Out".
pub open spec fn sold_out(texts: Seq<Seq<char>>) -> bool {
    exists|i: int| 0 <= i < texts.len() && trim_spec(texts[i]) == "Sold Out"@
}

/// The image source the extractor uses: the lazy-load attribute when
/// present, else the standard one.
pub open spec fn picked_image(raw: RawListingView) -> Option<Seq<char>> {
    if raw.image_lazy is Some {
        raw.image_lazy
    } else {
        raw.image_src
    }
}

/// The record extracted from one container, if any: containers without a
/// link are non-product decorations, and candidates failing the match or
/// availability filters are discarded.
pub open spec fn spec_candidate_of(raw: RawListingView, cfg: ScraperConfigView, now: int) -> Option<
    JacketView,
> {
    match raw.link_href {
        None => None,
        Some(href) => {
            let url = canonical_url(cfg.base_url, href);
            let title = title_of(raw);
            if !matches_terms(title, cfg.search_terms) {
                None
            } else if sold_out(raw.sold_out_texts) {
                None
            } else {
                Some(
                    JacketView {
                        id: record_identity(cfg.name, url),
                        title,
                        price: clean_or(raw.price_text, "Price not found"@),
                        url,
                        image_url: match picked_image(raw) {
                            Some(src) => Some(normalize_image(cfg.base_url, src)),
                            None => None,
                        },
                        discovered_at: now,
                    },
                )
            }
        },
    }
}

fn clean_or_exec(text: &Option<String>, fallback: &str) -> (r: String)
    ensures
        r@ == clean_or(opt_view(*text), fallback@),
{
    match text {
        Some(t) => {
            let tr = trim_str(t.as_str());
            if tr.unicode_len() == 0 {
                fallback.to_owned()
            } else {
                tr
            }
        },
        None => fallback.to_owned(),
    }
}

fn matches_any_term(title: &str, terms: &Vec<String>) -> (r: bool)
    ensures
        r == matches_terms(title@, terms@.map_values(|t: String| t@)),
{
    let title_low = lowercase(title);
    let ghost terms_view = terms@.map_values(|t: String| t@);
    let mut i: usize = 0;
    while i < terms.len()
        invariant
            terms_view == terms@.map_values(|t: String| t@),
            0 <= i <= terms.len(),
            title_low@ == lower_of(title@),
            forall|j: int|
                0 <= j < i ==> !contains_seq(lower_of(title@), lower_of(terms_view[j])),
        decreases terms.len() - i,
    {
        let term_low = lowercase(terms[i].as_str());
        if contains_str(title_low.as_str(), term_low.as_str()) {
            proof {
                assert(terms_view[i as int] == terms@[i as int]@);
                assert(0 <= i < terms_view.len() && contains_seq(
                    lower_of(title@),
                    lower_of(terms_view[i as int]),
                ));
            }
            return true;
        }
        i += 1;
    }
    false
}

fn any_sold_out(texts: &Vec<String>) -> (r: bool)
    ensures
        r == sold_out(texts@.map_values(|t: String| t@)),
{
    let ghost texts_view = texts@.map_values(|t: String| t@);
    let mut i: usize = 0;
    while i < texts.len()
        invariant
            texts_view == texts@.map_values(|t: String| t@),
            0 <= i <= texts.len(),
            forall|j: int| 0 <= j < i ==> trim_spec(texts_view[j]) != "Sold Out"@,
        decreases texts.len() - i,
    {
        let tr = trim_str(texts[i].as_str());
        if str_eq(tr.as_str(), "Sold Out") {
            proof {
                assert(texts_view[i as int] == texts@[i as int]@);
                assert(0 <= i < texts_view.len() && trim_spec(texts_view[i as int])
                    == "Sold Out"@);
            }
            return true;
        }
        i += 1;
    }
    false
}

/// Extracts the record of one container, applying every rule of the
/// extraction policy.
pub fn candidate_of_raw(raw: &RawListing, cfg: &ScraperConfig, now: i64) -> (r: Option<Jacket>)
    ensures
        opt_jacket_view(r) == spec_candidate_of(raw@, cfg@, now as int),
{
    let href = match &raw.link_href {
        Some(h) => h,
        None => {
            return None;
        },
    };
    let url = canonicalize_url(cfg.base_url.as_str(), href.as_str());
    let name = clean_or_exec(&raw.title_text, "Unknown Item");
    let brand = clean_or_exec(&raw.brand_text, "Unknown Brand");
    let title: String = if str_eq(brand.as_str(), "Unknown Brand") {
        name
    } else {
        let t = brand.concat(" - ").concat(name.as_str());
        proof {
            assert(t@ =~= clean_or(opt_view(raw.brand_text), "Unknown Brand"@) + " - "@ + clean_or(
                raw@.title_text,
                "Unknown Item"@,
            ));
        }
        t
    };
    if !matches_any_term(title.as_str(), &cfg.search_terms) {
        return None;
    }
    if any_sold_out(&raw.sold_out_texts) {
        return None;
    }
    let price = clean_or_exec(&raw.price_text, "Price not found");
    let image_url: Option<String> = match &raw.image_lazy {
        Some(src) => Some(normalize_image_url(cfg.base_url.as_str(), src.as_str())),
        None => match &raw.image_src {
            Some(src) => Some(normalize_image_url(cfg.base_url.as_str(), src.as_str())),
            None => None,
        },
    };
    let id = compute_identity(cfg.name.as_str(), url.as_str());
    let j = Jacket { id, title, price, url, image_url, discovered_at: now };
    proof {
        let v = spec_candidate_of(raw@, cfg@, now as int);
        assert(j@ =~= v.unwrap());
    }
    Some(j)
}

/// The view of an optional record.
pub open spec fn opt_jacket_view(o: Option<Jacket>) -> Option<JacketView> {
    match o {
        Some(j) => Some(j@),
        None => None,
    }
}

/// The records extracted from a page's containers, in page order;
/// containers yielding no candidate leave no trace.
pub open spec fn spec_extract_list(
    raws: Seq<RawListingView>,
    cfg: ScraperConfigView,
    now: int,
) -> Seq<JacketView>
    decreases raws.len(),
{
    if raws.len() == 0 {
        Seq::empty()
    } else {
        let rest = spec_extract_list(raws.drop_first(), cfg, now);
        match spec_candidate_of(raws.first(), cfg, now) {
            Some(j) => seq![j] + rest,
            None => rest,
        }
    }
}

/// Extracts all records of one page's containers, in order.
pub fn extract_candidates(raws: &Vec<RawListing>, cfg: &ScraperConfig, now: i64) -> (r: Vec<Jacket>)
    ensures
        r@.map_values(|j: Jacket| j@) == spec_extract_list(
            raws@.map_values(|x: RawListing| x@),
            cfg@,
            now as int,
        ),
{
    let ghost full = raws@.map_values(|x: RawListing| x@);
    let mut out: Vec<Jacket> = Vec::new();
    proof {
        assert(full.subrange(0, full.len() as int) =~= full);
        assert(out@.map_values(|j: Jacket| j@) =~= Seq::<JacketView>::empty());
    }
    let len = raws.len();
    let mut i: usize = 0;
    while i < len
        invariant
            len == raws@.len(),
            full == raws@.map_values(|x: RawListing| x@),
            0 <= i <= len,
            spec_extract_list(full, cfg@, now as int) == out@.map_values(|j: Jacket| j@)
                + spec_extract_list(full.subrange(i as int, len as int), cfg@, now as int),
        decreases len - i,
    {
        let ghost rest = full.subrange(i as int, len as int);
        let ghost out_pre = out@;
        match candidate_of_raw(&raws[i], cfg, now) {
            Some(j) => {
                out.push(j);
                proof {
                    assert(rest.first() == full[i as int]);
                    assert(rest.drop_first() =~= full.subrange(i + 1, len as int));
                    assert(out@.map_values(|j: Jacket| j@) =~= out_pre.map_values(|j: Jacket| j@)
                        + seq![out@[out@.len() - 1]@]);
                    assert(out@.map_values(|j: Jacket| j@) + spec_extract_list(
                        full.subrange(i + 1, len as int),
                        cfg@,
                        now as int,
                    ) =~= spec_extract_list(full, cfg@, now as int));
                }
            },
            None => {
                proof {
                    assert(rest.first() == full[i as int]);
                    assert(rest.drop_first() =~= full.subrange(i + 1, len as int));
                }
            },
        }
        i += 1;
    }
    proof {
        assert(full.subrange(len as int, len as int) =~= Seq::<RawListingView>::empty());
        assert(out@.map_values(|j: Jacket| j@) + Seq::<JacketView>::empty() =~= out@.map_values(
            |j: Jacket| j@,
        ));
    }
    out
}

/// What one fetched page yields: the extracted records, in page order,
/// and the discovered "next page" URL, if the page names one.
pub struct PageData {
    pub candidates: Vec<Jacket>,
    pub next_href: Option<String>,
}

/// Parses one fetched page and runs the record extractor over it.
///
/// The page body is outside input, so the records themselves cannot be
/// pinned to it; what is promised instead holds of every record the call
/// can return, whatever the page contained. The extraction policy itself
/// is [`extract_candidates`], exact in its raw inputs.
pub fn process_page(html: &str, sels: &crate::markup::CompiledSelectors, cfg: &ScraperConfig, now: i64) -> (r:
    PageData)
    ensures
        forall|k: int|
            0 <= k < r.candidates@.len() ==> listing_admissible(
                #[trigger] r.candidates@[k]@,
                cfg@,
                now as int,
            ),
        r.next_href matches Some(u) ==> exists|h: Seq<char>|
            u@ == crate::urls::resolve_href(cfg.base_url@, h),
{
    let doc = crate::markup::parse_document(html);
    let raws = crate::markup::collect_page_raws(&doc, sels);
    let next_href = crate::markup::extract_next_page_url(&doc, sels, cfg.base_url.as_str());
    let candidates = extract_candidates(&raws, cfg, now);
    proof {
        lemma_extract_admissible(raws@.map_values(|x: RawListing| x@), cfg@, now as int);
        assert forall|k: int| 0 <= k < candidates@.len() implies listing_admissible(
            #[trigger] candidates@[k]@,
            cfg@,
            now as int,
        ) by {
            assert(candidates@.map_values(|j: Jacket| j@)[k] == candidates@[k]@);
        }
    }
    PageData { candidates, next_href }
}

/// What holds of every emitted record: its title matches a configured
/// term, its identity is derived from the site name and its canonical
/// URL, its URL is the canonical form of some href, its timestamp is the
/// extraction time, and its title is non-empty.
pub open spec fn listing_admissible(j: JacketView, cfg: ScraperConfigView, now: int) -> bool {
    &&& matches_terms(j.title, cfg.search_terms)
    &&& j.id == record_identity(cfg.name, j.url)
    &&& (exists|href: Seq<char>| j.url == canonical_url(cfg.base_url, href))
    &&& j.discovered_at == now
    &&& j.title.len() > 0
}

/// Law: a candidate whose combined title contains none of the configured
/// match terms (case-insensitively) is never emitted.
pub proof fn lemma_match_filter_excludes(raw: RawListingView, cfg: ScraperConfigView, now: int)
    requires
        !matches_terms(title_of(raw), cfg.search_terms),
    ensures
        spec_candidate_of(raw, cfg, now) is None,
{
}

/// Law: a candidate whose sold-out-indicator text is exactly "Sold Out"
/// is never emitted, even when its title matches a term.
pub proof fn lemma_sold_out_excluded(raw: RawListingView, cfg: ScraperConfigView, now: int)
    requires
        sold_out(raw.sold_out_texts),
    ensures
        spec_candidate_of(raw, cfg, now) is None,
{
}

/// Every record a container can yield is admissible.
pub proof fn lemma_candidate_admissible(raw: RawListingView, cfg: ScraperConfigView, now: int)
    ensures
        spec_candidate_of(raw, cfg, now) matches Some(j) ==> listing_admissible(j, cfg, now),
{
    if spec_candidate_of(raw, cfg, now) is Some {
        let j = spec_candidate_of(raw, cfg, now).unwrap();
        assert(j.title.len() > 0) by {
            reveal_strlit("Unknown Item");
            reveal_strlit("Unknown Brand");
            reveal_strlit(" - ");
        }
    }
}

/// Every extracted record of a page is admissible.
pub proof fn lemma_extract_admissible(raws: Seq<RawListingView>, cfg: ScraperConfigView, now: int)
    ensures
        forall|k: int|
            0 <= k < spec_extract_list(raws, cfg, now).len() ==> listing_admissible(
                #[trigger] spec_extract_list(raws, cfg, now)[k],
                cfg,
                now,
            ),
    decreases raws.len(),
{
    if raws.len() > 0 {
        lemma_extract_admissible(raws.drop_first(), cfg, now);
        lemma_candidate_admissible(raws.first(), cfg, now);
        let full = spec_extract_list(raws, cfg, now);
        let rest = spec_extract_list(raws.drop_first(), cfg, now);
        match spec_candidate_of(raws.first(), cfg, now) {
            Some(j) => {
                assert(full == seq![j] + rest);
                assert forall|k: int| 0 <= k < full.len() implies listing_admissible(
                    #[trigger] full[k],
                    cfg,
                    now,
                ) by {
                    if k == 0 {
                        assert(full[0] == j);
                    } else {
                        assert(full[k] == rest[k - 1]);
                    }
                }
            },
            None => {
                assert(full == rest);
            },
        }
    }
}

} // verus!

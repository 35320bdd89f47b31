//! The pagination driver and dedup engine for one site search: a state
//! machine over (search term, page) pairs. The caller fetches each
//! pending URL and hands the body back; every decision — which page or
//! term comes next, when a term ends, which records are kept — is made
//! here. A term ends when the page names no next link, when the next
//! link points back to the page's own URL, or when the page ceiling is
//! reached.

use vstd::prelude::*;
use vstd::string::StringExecFns;

use crate::config::{ConfigError, ScraperConfig, profile_fields_valid, validate_profile_fields};
use crate::extract::{PageData, listing_admissible, process_page};
use crate::markup::{CompiledSelectors, compile_selectors, selectors_ok};
use crate::models::Jacket;
use crate::text::str_eq;
use crate::urls::search_url;

verus! {

/// Some record of `s` already has this canonical URL.
pub open spec fn has_url(s: Seq<Jacket>, url: Seq<char>) -> bool {
    exists|i: int| 0 <= i < s.len() && s[i].url@ == url
}

/// No two records of `s` share a canonical URL.
pub open spec fn distinct_urls(s: Seq<Jacket>) -> bool {
    forall|i: int, j: int| 0 <= i < j < s.len() ==> s[i].url@ != s[j].url@
}

/// The first-seen fold: each candidate joins the accumulated records
/// unless one with its canonical URL is already there; later duplicates
/// are discarded outright, fields unmerged.
pub open spec fn folds_to(acc: Seq<Jacket>, xs: Seq<Jacket>) -> Seq<Jacket>
    decreases xs.len(),
{
    if xs.len() == 0 {
        acc
    } else {
        folds_to(
            if has_url(acc, xs.first().url@) {
                acc
            } else {
                acc.push(xs.first())
            },
            xs.drop_first(),
        )
    }
}

/// The fold keeps the accumulator as a prefix, and every record it adds
/// comes from the candidate list.
pub proof fn lemma_fold_extends(acc: Seq<Jacket>, xs: Seq<Jacket>)
    ensures
        folds_to(acc, xs).len() >= acc.len(),
        forall|k: int| 0 <= k < acc.len() ==> folds_to(acc, xs)[k] == acc[k],
        forall|k: int|
            acc.len() <= k < folds_to(acc, xs).len() ==> xs.contains(
                #[trigger] folds_to(acc, xs)[k],
            ),
    decreases xs.len(),
{
    if xs.len() > 0 {
        let step = if has_url(acc, xs.first().url@) {
            acc
        } else {
            acc.push(xs.first())
        };
        lemma_fold_extends(step, xs.drop_first());
        assert(folds_to(acc, xs) == folds_to(step, xs.drop_first()));
        assert forall|k: int| 0 <= k < acc.len() implies folds_to(acc, xs)[k] == acc[k] by {
            assert(folds_to(step, xs.drop_first())[k] == step[k]);
        }
        assert forall|k: int|
            acc.len() <= k < folds_to(acc, xs).len() implies xs.contains(
            #[trigger] folds_to(acc, xs)[k],
        ) by {
            if k < step.len() {
                assert(folds_to(step, xs.drop_first())[k] == step[k]);
                assert(folds_to(acc, xs)[k] == xs.first());
                assert(xs[0] == xs.first());
            } else {
                assert(xs.drop_first().contains(folds_to(step, xs.drop_first())[k]));
                let w = choose|w: int|
                    0 <= w < xs.drop_first().len() && xs.drop_first()[w] == folds_to(
                        step,
                        xs.drop_first(),
                    )[k];
                assert(xs[w + 1] == xs.drop_first()[w]);
            }
        }
    }
}

fn records_have_url(records: &Vec<Jacket>, url: &String) -> (r: bool)
    ensures
        r == has_url(records@, url@),
{
    let mut i: usize = 0;
    while i < records.len()
        invariant
            0 <= i <= records@.len(),
            forall|j: int| 0 <= j < i ==> records@[j].url@ != url@,
        decreases records.len() - i,
    {
        if str_eq(records[i].url.as_str(), url.as_str()) {
            assert(records@[i as int].url@ == url@);
            return true;
        }
        i += 1;
    }
    false
}

fn fold_into(records: &mut Vec<Jacket>, candidates: Vec<Jacket>)
    requires
        distinct_urls(old(records)@),
    ensures
        final(records)@ == folds_to(old(records)@, candidates@),
        distinct_urls(final(records)@),
{
    let mut rest = candidates;
    while rest.len() > 0
        invariant
            distinct_urls(records@),
            folds_to(old(records)@, candidates@) == folds_to(records@, rest@),
        decreases rest.len(),
    {
        let ghost rest_pre = rest@;
        let ghost recs_pre = records@;
        let c = rest.remove(0);
        proof {
            assert(rest_pre.first() == c);
            assert(rest_pre.drop_first() =~= rest@);
        }
        if !records_have_url(records, &c.url) {
            let ghost c_url = c.url@;
            records.push(c);
            proof {
                assert(records@ =~= recs_pre.push(c));
                assert forall|i: int, j: int|
                    0 <= i < j < records@.len() implies records@[i].url@ != records@[j].url@ by {
                    if j == records@.len() - 1 {
                        assert(records@[i] == recs_pre[i]);
                        assert(!has_url(recs_pre, c_url));
                    }
                }
            }
        }
    }
    proof {
        assert(folds_to(records@, rest@) == records@);
    }
}

/// One site search in progress: the driver's position (term and page),
/// the URL it wants fetched next, and the records folded so far.
pub struct SearchSession {
    pub config: ScraperConfig,
    pub sels: CompiledSelectors,
    pub max_pages: u32,
    pub term_idx: usize,
    pub page_num: u32,
    pub current_url: String,
    pub finished: bool,
    pub records: Vec<Jacket>,
}

impl SearchSession {
    /// The configured match terms, as the specs see them.
    pub open spec fn terms(&self) -> Seq<Seq<char>> {
        self.config@.search_terms
    }

    /// Well-formedness: the driver stands on a real term and a page
    /// within the ceiling while active, stands past the last term once
    /// finished, and never holds two records with one canonical URL.
    pub open spec fn inv(&self) -> bool {
        &&& self.max_pages >= 1
        &&& !self.finished ==> self.term_idx < self.terms().len()
        &&& !self.finished ==> 1 <= self.page_num <= self.max_pages
        &&& self.finished ==> self.term_idx == self.terms().len()
        &&& distinct_urls(self.records@)
    }

    /// An upper bound on the fetches still to come; every step lowers
    /// it, so every search ends.
    pub open spec fn measure(&self) -> int {
        if self.finished {
            0
        } else {
            (self.terms().len() - self.term_idx) * (self.max_pages as int) - (self.page_num - 1)
        }
    }

    /// Opens a search over a profile: validates the template, the match
    /// terms and the selector patterns, and stands on page one of the
    /// first term.
    pub fn start(config: ScraperConfig, max_pages: u32) -> (r: Result<SearchSession, ConfigError>)
        requires
            max_pages >= 1,
        ensures
            r is Ok <==> profile_fields_valid(config@) && selectors_ok(config@.selectors),
            r matches Err(e) ==> {
                ||| e is InvalidTemplate && !crate::config::template_valid(
                    config@.search_url_pattern,
                )
                ||| e is EmptySearchTerms && config@.search_terms.len() == 0
                ||| (e matches ConfigError::InvalidSelector(p) && !crate::markup::selector_ok(p@))
            },
            r matches Ok(s) ==> {
                &&& s.inv()
                &&& s.config@ == config@
                &&& s.max_pages == max_pages
                &&& s.term_idx == 0
                &&& s.page_num == 1
                &&& !s.finished
                &&& s.records@.len() == 0
                &&& s.current_url@ == search_url(config@.search_url_pattern, config@.search_terms[0])
            },
    {
        match validate_profile_fields(&config) {
            Ok(()) => {},
            Err(e) => {
                return Err(e);
            },
        }
        let sels = match compile_selectors(&config.selectors) {
            Ok(s) => s,
            Err(e) => {
                return Err(e);
            },
        };
        let first_url = config.build_search_url(config.search_terms[0].as_str());
        Ok(
            SearchSession {
                config,
                sels,
                max_pages,
                term_idx: 0,
                page_num: 1,
                current_url: first_url,
                finished: false,
                records: Vec::new(),
            },
        )
    }

    /// The URL the driver wants fetched next; nothing once finished.
    pub fn pending_fetch(&self) -> (r: Option<String>)
        ensures
            r is Some <==> !self.finished,
            r matches Some(u) ==> u@ == self.current_url@,
    {
        if self.finished {
            None
        } else {
            Some(self.current_url.clone())
        }
    }

    /// The driver has moved past the current term: onto page one of the
    /// next term, or to the finished state after the last one.
    pub open spec fn moved_to_next_term(pre: SearchSession, post: SearchSession) -> bool {
        if pre.term_idx + 1 < pre.terms().len() {
            &&& post.term_idx == pre.term_idx + 1
            &&& post.page_num == 1
            &&& !post.finished
            &&& post.current_url@ == search_url(
                pre.config@.search_url_pattern,
                pre.terms()[pre.term_idx + 1],
            )
        } else {
            &&& post.finished
            &&& post.term_idx == pre.terms().len()
        }
    }

    /// The driver stays on its term, moving to the discovered next page.
    pub open spec fn moved_to_next_page(pre: SearchSession, post: SearchSession, u: String) -> bool {
        &&& post.term_idx == pre.term_idx
        &&& post.page_num == pre.page_num + 1
        &&& !post.finished
        &&& post.current_url@ == u@
    }

    fn next_term(&mut self)
        requires
            old(self).inv(),
            !old(self).finished,
        ensures
            Self::moved_to_next_term(*old(self), *final(self)),
            final(self).config == old(self).config,
            final(self).sels == old(self).sels,
            final(self).max_pages == old(self).max_pages,
            final(self).records == old(self).records,
    {
        let n = self.config.search_terms.len();
        self.term_idx = self.term_idx + 1;
        if self.term_idx < n {
            self.page_num = 1;
            let url = self.config.build_search_url(self.config.search_terms[self.term_idx].as_str());
            self.current_url = url;
        } else {
            self.finished = true;
        }
    }

    /// Takes one extracted page: folds its records in first-seen order,
    /// then decides where the driver stands next. The term ends — not
    /// earlier, not later — when the page names no next URL, when the
    /// next URL is the page's own (the self-reference guard), or when
    /// the page ceiling is reached.
    pub fn advance(&mut self, page: PageData)
        requires
            old(self).inv(),
            !old(self).finished,
        ensures
            final(self).inv(),
            final(self).config == old(self).config,
            final(self).max_pages == old(self).max_pages,
            final(self).records@ == folds_to(old(self).records@, page.candidates@),
            final(self).measure() < old(self).measure(),
            match page.next_href {
                Some(u) => {
                    if u@ != old(self).current_url@ && old(self).page_num < old(self).max_pages {
                        Self::moved_to_next_page(*old(self), *final(self), u)
                    } else {
                        Self::moved_to_next_term(*old(self), *final(self))
                    }
                },
                None => Self::moved_to_next_term(*old(self), *final(self)),
            },
    {
        let ghost pre = *old(self);
        fold_into(&mut self.records, page.candidates);
        let continue_url: Option<String> = match page.next_href {
            Some(u) => {
                if !str_eq(u.as_str(), self.current_url.as_str()) && self.page_num < self.max_pages {
                    Some(u)
                } else {
                    None
                }
            },
            None => None,
        };
        match continue_url {
            Some(u) => {
                self.page_num = self.page_num + 1;
                self.current_url = u;
            },
            None => {
                self.next_term();
            },
        }
        proof {
            let t = pre.terms().len() - pre.term_idx;
            let m = pre.max_pages as int;
            assert(t >= 1);
            assert(t * m >= m) by (nonlinear_arith)
                requires
                    t >= 1,
                    m >= 1,
            ;
            if !self.finished && self.term_idx == pre.term_idx + 1 {
                assert((t - 1) * m == t * m - m) by (nonlinear_arith);
            }
        }
    }

    /// Fetch-parse-extract-advance for one page body. The body is
    /// outside input: the records it adds cannot be pinned to it, but
    /// each one is admissible for this profile, the records already
    /// folded stay exactly as they were, and the driver either follows
    /// the page's next link or moves past the current term — never
    /// anything else.
    pub fn on_page(&mut self, html: &str, now: i64)
        requires
            old(self).inv(),
            !old(self).finished,
        ensures
            final(self).inv(),
            final(self).config == old(self).config,
            final(self).max_pages == old(self).max_pages,
            final(self).measure() < old(self).measure(),
            (exists|u: String| Self::moved_to_next_page(*old(self), *final(self), u))
                || Self::moved_to_next_term(*old(self), *final(self)),
            final(self).records@.len() >= old(self).records@.len(),
            forall|k: int|
                0 <= k < old(self).records@.len() ==> final(self).records@[k] == old(
                    self,
                ).records@[k],
            forall|k: int|
                old(self).records@.len() <= k < final(self).records@.len() ==> listing_admissible(
                    #[trigger] final(self).records@[k]@,
                    old(self).config@,
                    now as int,
                ),
    {
        let page = process_page(html, &self.sels, &self.config, now);
        let ghost candidates = page.candidates@;
        let ghost pre_records = self.records@;
        let ghost next_href = page.next_href;
        self.advance(page);
        proof {
            match next_href {
                Some(u) => {
                    if u@ != old(self).current_url@ && old(self).page_num < old(self).max_pages {
                        assert(Self::moved_to_next_page(*old(self), *self, u));
                    }
                },
                None => {},
            }
            lemma_fold_extends(pre_records, candidates);
            assert forall|k: int|
                pre_records.len() <= k < self.records@.len() implies listing_admissible(
                #[trigger] self.records@[k]@,
                old(self).config@,
                now as int,
            ) by {
                assert(candidates.contains(self.records@[k]));
                let w = choose|w: int| 0 <= w < candidates.len() && candidates[w] == self.records@[k];
                assert(listing_admissible(candidates[w]@, old(self).config@, now as int));
            }
        }
    }

    /// Ends the search, handing out the unique records in first-seen
    /// order.
    pub fn into_records(self) -> (r: Vec<Jacket>)
        ensures
            r == self.records,
    {
        self.records
    }
}

} // verus!

//! URL handling: resolution of relative links against a base URL, query
//! stripping for canonical identity, image-source normalization, and
//! search-URL construction from a template.

use vstd::prelude::*;
use vstd::string::StrSliceExecFns;
use vstd::string::StringExecFns;

use crate::text::{replace_all, replace_all_str, starts_with, starts_with_str};

verus! {

/// `s` up to (and excluding) its first `'?'`; all of `s` when it has none.
pub open spec fn strip_query(s: Seq<char>) -> Seq<char>
    decreases s.len(),
{
    if s.len() == 0 {
        s
    } else if s[0] == '?' {
        Seq::empty()
    } else {
        seq![s[0]] + strip_query(s.drop_first())
    }
}

proof fn lemma_strip_query_no_query(s: Seq<char>)
    requires
        forall|j: int| 0 <= j < s.len() ==> s[j] != '?',
    ensures
        strip_query(s) =~= s,
    decreases s.len(),
{
    if s.len() > 0 {
        lemma_strip_query_no_query(s.drop_first());
    }
}

proof fn lemma_strip_query_prefix(s: Seq<char>, i: int)
    requires
        0 <= i < s.len(),
        s[i] == '?',
        forall|j: int| 0 <= j < i ==> s[j] != '?',
    ensures
        strip_query(s) =~= s.subrange(0, i),
    decreases s.len(),
{
    if i > 0 {
        lemma_strip_query_prefix(s.drop_first(), i - 1);
        assert(s.drop_first().subrange(0, i - 1) =~= s.subrange(1, i));
    }
}

/// A query suffix (empty, or starting with `'?'`) appended to a URL that
/// has no `'?'` of its own does not change the canonical form.
pub proof fn lemma_strip_query_of_append(u: Seq<char>, q: Seq<char>)
    requires
        forall|j: int| 0 <= j < u.len() ==> u[j] != '?',
        q.len() > 0 ==> q[0] == '?',
    ensures
        strip_query(u + q) =~= u,
    decreases u.len(),
{
    if u.len() == 0 {
        assert(u + q =~= q);
        if q.len() > 0 {
            assert(strip_query(q) =~= Seq::empty());
        }
    } else {
        assert((u + q)[0] == u[0]);
        assert((u + q).drop_first() =~= u.drop_first() + q);
        lemma_strip_query_of_append(u.drop_first(), q);
    }
}

fn first_query_pos(s: &str, len: usize) -> (r: usize)
    requires
        len == s@.len(),
    ensures
        r <= len,
        forall|j: int| 0 <= j < r ==> s@[j] != '?',
        r < len ==> s@[r as int] == '?',
{
    let mut i: usize = 0;
    while i < len
        invariant
            len == s@.len(),
            0 <= i <= len,
            forall|j: int| 0 <= j < i ==> s@[j] != '?',
        decreases len - i,
    {
        if s.get_char(i) == '?' {
            return i;
        }
        i += 1;
    }
    i
}

/// Removes the query string: everything from the first `'?'` onward.
pub fn strip_query_str(s: &str) -> (r: String)
    ensures
        r@ == strip_query(s@),
{
    let len = s.unicode_len();
    let q = first_query_pos(s, len);
    if q == len {
        proof {
            lemma_strip_query_no_query(s@);
        }
        s.to_owned()
    } else {
        proof {
            lemma_strip_query_prefix(s@, q as int);
        }
        s.substring_char(0, q).to_owned()
    }
}

/// An href as an absolute URL: kept as is when already absolute,
/// otherwise appended to the site's base URL.
pub open spec fn resolve_href(base: Seq<char>, href: Seq<char>) -> Seq<char> {
    if starts_with(href, "http"@) {
        href
    } else {
        base + href
    }
}

/// The canonical form of a listing link: resolved against the base URL,
/// with the query string stripped.
pub open spec fn canonical_url(base: Seq<char>, href: Seq<char>) -> Seq<char> {
    strip_query(resolve_href(base, href))
}

/// Resolves an href against the base URL.
pub fn resolve_href_str(base: &str, href: &str) -> (r: String)
    ensures
        r@ == resolve_href(base@, href@),
{
    if starts_with_str(href, "http") {
        href.to_owned()
    } else {
        base.to_owned().concat(href)
    }
}

/// Resolves an href against the base URL and strips its query string.
pub fn canonicalize_url(base: &str, href: &str) -> (r: String)
    ensures
        r@ == canonical_url(base@, href@),
{
    let resolved = resolve_href_str(base, href);
    strip_query_str(resolved.as_str())
}

/// An image source as one absolute, concrete URL: protocol-relative
/// sources get `https:`, root-relative sources get the base URL, and any
/// `{width}` template token becomes the fixed width `800`.
pub open spec fn normalize_image(base: Seq<char>, src: Seq<char>) -> Seq<char> {
    let abs = if starts_with(src, "http"@) {
        src
    } else if starts_with(src, "//"@) {
        "https:"@ + src
    } else {
        base + src
    };
    replace_all(abs, "{width}"@, "800"@)
}

/// Normalizes an image source to one absolute, renderable URL.
pub fn normalize_image_url(base: &str, src: &str) -> (r: String)
    ensures
        r@ == normalize_image(base@, src@),
{
    let abs: String = if starts_with_str(src, "http") {
        src.to_owned()
    } else if starts_with_str(src, "//") {
        "https:".to_owned().concat(src)
    } else {
        base.to_owned().concat(src)
    };
    replace_all_str(abs.as_str(), "{width}", "800")
}

/// Names the result of `urlencoding::encode` on a search term.
pub uninterp spec fn percent_encoded(s: Seq<char>) -> Seq<char>;

/// Relies on `urlencoding::encode`: percent-encodes every byte except
/// ASCII alphanumerics and `-`, `_`, `.`, `~`; the result depends on the
/// input characters alone.
#[verifier::external_body]
pub(crate) fn url_encode(s: &str) -> (r: String)
    ensures
        r@ == percent_encoded(s@),
{
    urlencoding::encode(s).into_owned()
}

/// The first page's URL for one search term: the term, percent-encoded,
/// substituted for every `{query}` token of the template.
pub open spec fn search_url(template: Seq<char>, term: Seq<char>) -> Seq<char> {
    replace_all(template, "{query}"@, percent_encoded(term))
}

/// Renders the search URL for one term from the site's template.
pub fn render_search_url(template: &str, term: &str) -> (r: String)
    ensures
        r@ == search_url(template@, term@),
{
    let enc = url_encode(term);
    replace_all_str(template, "{query}", enc.as_str())
}

} // verus!

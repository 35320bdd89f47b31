//! Stable record identity: a digest of the site name and the canonical
//! URL, rendered as lowercase hex. Determinism of the digest is the only
//! property the scheme needs: the same site and canonical URL always give
//! the same identity, across polls and process restarts.

use vstd::prelude::*;

use crate::text::push_char;
use crate::urls::strip_query;

verus! {

/// Names the 16-byte digest that `md5::compute` returns for an input.
pub uninterp spec fn digest_bytes(data: Seq<char>) -> Seq<u8>;

/// Relies on `md5::compute`: a 16-byte digest that depends on the input
/// bytes alone.
#[verifier::external_body]
fn md5_of(data: &str) -> (r: Vec<u8>)
    ensures
        r@ == digest_bytes(data@),
        r@.len() == 16,
{
    md5::compute(data).0.to_vec()
}

/// The lowercase hex character for a value below 16.
pub open spec fn hex_char_spec(n: u8) -> char {
    if n < 10 {
        (n + 48) as char
    } else {
        (n + 87) as char
    }
}

/// `bytes` rendered as lowercase hex, two characters per byte.
pub open spec fn hex_of(bytes: Seq<u8>) -> Seq<char>
    decreases bytes.len(),
{
    if bytes.len() == 0 {
        Seq::empty()
    } else {
        seq![
            hex_char_spec(bytes.first() / 16),
            hex_char_spec(bytes.first() % 16),
        ] + hex_of(bytes.drop_first())
    }
}

fn hex_char(n: u8) -> (r: char)
    requires
        n < 16,
    ensures
        r == hex_char_spec(n),
{
    if n < 10 {
        (n + 48) as char
    } else {
        (n + 87) as char
    }
}

/// Renders bytes as lowercase hex.
fn to_hex(bytes: &Vec<u8>) -> (r: String)
    ensures
        r@ == hex_of(bytes@),
{
    let mut out = String::new();
    let len = bytes.len();
    proof {
        assert(bytes@.subrange(0, len as int) =~= bytes@);
        assert(Seq::<char>::empty() + hex_of(bytes@) =~= hex_of(bytes@));
    }
    let mut i: usize = 0;
    while i < len
        invariant
            len == bytes@.len(),
            0 <= i <= len,
            hex_of(bytes@) == out@ + hex_of(bytes@.subrange(i as int, len as int)),
        decreases len - i,
    {
        let ghost rest = bytes@.subrange(i as int, len as int);
        let b = bytes[i];
        push_char(&mut out, hex_char(b / 16));
        push_char(&mut out, hex_char(b % 16));
        proof {
            assert(rest.first() == bytes@[i as int]);
            assert(rest.drop_first() =~= bytes@.subrange(i + 1, len as int));
            assert(out@ + hex_of(bytes@.subrange(i + 1, len as int)) =~= hex_of(bytes@));
        }
        i += 1;
    }
    proof {
        assert(bytes@.subrange(len as int, len as int) =~= Seq::<u8>::empty());
        assert(out@ + Seq::<char>::empty() =~= out@);
    }
    out
}

/// The identity of a record: the digest of the site name and the
/// canonical URL joined by `':'`, in lowercase hex.
pub open spec fn record_identity(site: Seq<char>, canon_url: Seq<char>) -> Seq<char> {
    hex_of(digest_bytes(site + ":"@ + canon_url))
}

/// Computes the identity for a site name and an already-canonical URL.
pub fn compute_identity(site: &str, canonical_url: &str) -> (r: String)
    ensures
        r@ == record_identity(site@, canonical_url@),
        r@.len() == 32,
{
    let keyed = site.to_owned().concat(":").concat(canonical_url);
    proof {
        assert(keyed@ =~= site@ + ":"@ + canonical_url@);
    }
    let digest = md5_of(keyed.as_str());
    proof {
        lemma_hex_len(digest@);
    }
    to_hex(&digest)
}

proof fn lemma_hex_len(bytes: Seq<u8>)
    ensures
        hex_of(bytes).len() == 2 * bytes.len(),
    decreases bytes.len(),
{
    if bytes.len() > 0 {
        lemma_hex_len(bytes.drop_first());
    }
}

/// Computes the identity for a site name and a raw listing URL, stripping
/// the query string first.
pub fn listing_identity(site: &str, url: &str) -> (r: String)
    ensures
        r@ == record_identity(site@, strip_query(url@)),
{
    let canon = crate::urls::strip_query_str(url);
    compute_identity(site, canon.as_str())
}

/// Law: the identity never depends on the query string. A URL carrying
/// one query suffix and the same URL carrying another (or none) give one
/// identity for one site; and computing the identity twice for one
/// (site, URL) pair yields the same value, since the identity is a
/// function of the pair alone.
pub proof fn lemma_identity_ignores_query(
    site: Seq<char>,
    url: Seq<char>,
    q1: Seq<char>,
    q2: Seq<char>,
)
    requires
        forall|j: int| 0 <= j < url.len() ==> url[j] != '?',
        q1.len() > 0 ==> q1[0] == '?',
        q2.len() > 0 ==> q2[0] == '?',
    ensures
        record_identity(site, strip_query(url + q1)) == record_identity(
            site,
            strip_query(url + q2),
        ),
{
    crate::urls::lemma_strip_query_of_append(url, q1);
    crate::urls::lemma_strip_query_of_append(url, q2);
}

} // verus!

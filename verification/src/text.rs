//! Character-level text utilities: substring search, prefix tests,
//! trimming and token replacement, each specified over `Seq<char>`.

use vstd::prelude::*;

verus! {

/// `n` occurs in `h` starting at position `i`.
pub open spec fn matches_at(h: Seq<char>, n: Seq<char>, i: int) -> bool {
    0 <= i && i + n.len() <= h.len() && h.subrange(i, i + n.len() as int) == n
}

/// `n` occurs somewhere in `h` as a contiguous run.
pub open spec fn contains_seq(h: Seq<char>, n: Seq<char>) -> bool {
    exists|i: int| matches_at(h, n, i)
}

/// `h` begins with `p`.
pub open spec fn starts_with(h: Seq<char>, p: Seq<char>) -> bool {
    p.len() <= h.len() && h.subrange(0, p.len() as int) == p
}

/// Relies on `String::push`: appends exactly one character.
#[verifier::external_body]
pub(crate) fn push_char(s: &mut String, c: char)
    ensures
        final(s)@ == old(s)@.push(c),
{
    s.push(c);
}

/// Compares `h[i .. i + n.len()]` with `n` character by character.
pub(crate) fn matches_at_exec(h: &str, n: &str, i: usize) -> (r: bool)
    requires
        i + n@.len() <= h@.len(),
    ensures
        r == matches_at(h@, n@, i as int),
{
    let hlen = h.unicode_len();
    let nlen = n.unicode_len();
    let mut j: usize = 0;
    while j < nlen
        invariant
            hlen == h@.len(),
            nlen == n@.len(),
            0 <= j <= nlen,
            i + nlen <= h@.len(),
            forall|k: int| 0 <= k < j ==> h@[i + k] == n@[k],
        decreases nlen - j,
    {
        if h.get_char(i + j) != n.get_char(j) {
            assert(!matches_at(h@, n@, i as int)) by {
                if h@.subrange(i as int, i + n@.len() as int) == n@ {
                    assert(h@.subrange(i as int, i + n@.len() as int)[j as int] == n@[j as int]);
                }
            }
            return false;
        }
        j += 1;
    }
    assert(h@.subrange(i as int, i + n@.len() as int) =~= n@);
    true
}

/// Substring search; returns whether `n` occurs in `h`.
pub fn contains_str(h: &str, n: &str) -> (r: bool)
    ensures
        r == contains_seq(h@, n@),
{
    let hlen = h.unicode_len();
    let nlen = n.unicode_len();
    if nlen > hlen {
        assert(forall|i: int| !matches_at(h@, n@, i));
        return false;
    }
    if nlen == 0 {
        assert(matches_at(h@, n@, 0)) by {
            assert(h@.subrange(0, 0) =~= n@);
        }
        return true;
    }
    let mut i: usize = 0;
    while i <= hlen - nlen
        invariant
            hlen == h@.len(),
            nlen == n@.len(),
            0 < nlen <= hlen,
            0 <= i <= hlen - nlen + 1,
            forall|k: int| 0 <= k < i ==> !matches_at(h@, n@, k),
        decreases hlen - nlen + 1 - i,
    {
        if matches_at_exec(h, n, i) {
            return true;
        }
        i += 1;
    }
    assert forall|k: int| !matches_at(h@, n@, k) by {
        if 0 <= k && k + n@.len() <= h@.len() {
            assert(k < i);
        }
    }
    false
}

/// Character-for-character equality of two string slices.
pub fn str_eq(a: &str, b: &str) -> (r: bool)
    ensures
        r == (a@ == b@),
{
    let alen = a.unicode_len();
    let blen = b.unicode_len();
    if alen != blen {
        return false;
    }
    let r = matches_at_exec(a, b, 0);
    proof {
        assert(a@.subrange(0, a@.len() as int) =~= a@);
    }
    r
}

/// Prefix test; returns whether `h` begins with `p`.
pub fn starts_with_str(h: &str, p: &str) -> (r: bool)
    ensures
        r == starts_with(h@, p@),
{
    let hlen = h.unicode_len();
    let plen = p.unicode_len();
    if plen > hlen {
        return false;
    }
    matches_at_exec(h, p, 0)
}

/// The whitespace characters stripped by [`trim_str`]: the Unicode
/// White_Space set.
pub open spec fn is_space(c: char) -> bool {
    ||| c == '\u{0009}'
    ||| c == '\u{000A}'
    ||| c == '\u{000B}'
    ||| c == '\u{000C}'
    ||| c == '\u{000D}'
    ||| c == ' '
    ||| c == '\u{0085}'
    ||| c == '\u{00A0}'
    ||| c == '\u{1680}'
    ||| c == '\u{2000}'
    ||| c == '\u{2001}'
    ||| c == '\u{2002}'
    ||| c == '\u{2003}'
    ||| c == '\u{2004}'
    ||| c == '\u{2005}'
    ||| c == '\u{2006}'
    ||| c == '\u{2007}'
    ||| c == '\u{2008}'
    ||| c == '\u{2009}'
    ||| c == '\u{200A}'
    ||| c == '\u{2028}'
    ||| c == '\u{2029}'
    ||| c == '\u{202F}'
    ||| c == '\u{205F}'
    ||| c == '\u{3000}'
}

/// `s` with leading and trailing whitespace removed.
pub open spec fn trim_spec(s: Seq<char>) -> Seq<char>
    decreases s.len(),
{
    if s.len() == 0 {
        s
    } else if is_space(s[0]) {
        trim_spec(s.drop_first())
    } else if is_space(s[s.len() - 1]) {
        trim_spec(s.drop_last())
    } else {
        s
    }
}

proof fn lemma_trim_all_space(s: Seq<char>)
    requires
        forall|j: int| 0 <= j < s.len() ==> is_space(s[j]),
    ensures
        trim_spec(s) =~= Seq::<char>::empty(),
    decreases s.len(),
{
    if s.len() > 0 {
        lemma_trim_all_space(s.drop_first());
    }
}

proof fn lemma_trim_bounds(s: Seq<char>, a: int, b: int)
    requires
        0 <= a <= b < s.len(),
        !is_space(s[a]),
        !is_space(s[b]),
        forall|j: int| 0 <= j < a ==> is_space(s[j]),
        forall|j: int| b < j < s.len() ==> is_space(s[j]),
    ensures
        trim_spec(s) == s.subrange(a, b + 1),
    decreases s.len(),
{
    if a > 0 {
        lemma_trim_bounds(s.drop_first(), a - 1, b - 1);
        assert(s.drop_first().subrange(a - 1, b) =~= s.subrange(a, b + 1));
    } else if b == s.len() - 1 {
        assert(s.subrange(0, s.len() as int) =~= s);
    } else {
        lemma_trim_bounds(s.drop_last(), a, b);
        assert(s.drop_last().subrange(a, b + 1) =~= s.subrange(a, b + 1));
    }
}

fn is_space_char(c: char) -> (r: bool)
    ensures
        r == is_space(c),
{
    match c {
        '\u{0009}' | '\u{000A}' | '\u{000B}' | '\u{000C}' | '\u{000D}' | ' ' | '\u{0085}'
            | '\u{00A0}' | '\u{1680}' | '\u{2000}' | '\u{2001}' | '\u{2002}' | '\u{2003}'
            | '\u{2004}' | '\u{2005}' | '\u{2006}' | '\u{2007}' | '\u{2008}' | '\u{2009}'
            | '\u{200A}' | '\u{2028}' | '\u{2029}' | '\u{202F}' | '\u{205F}' | '\u{3000}' => true,
        _ => false,
    }
}

fn first_non_space(s: &str, len: usize) -> (r: usize)
    requires
        len == s@.len(),
    ensures
        r <= len,
        forall|j: int| 0 <= j < r ==> is_space(s@[j]),
        r < len ==> !is_space(s@[r as int]),
{
    let mut a: usize = 0;
    while a < len
        invariant
            len == s@.len(),
            0 <= a <= len,
            forall|j: int| 0 <= j < a ==> is_space(s@[j]),
        decreases len - a,
    {
        if !is_space_char(s.get_char(a)) {
            return a;
        }
        a += 1;
    }
    a
}

fn last_non_space(s: &str, len: usize, a: usize) -> (r: usize)
    requires
        len == s@.len(),
        a < len,
        !is_space(s@[a as int]),
    ensures
        a <= r < len,
        !is_space(s@[r as int]),
        forall|j: int| r < j < len ==> is_space(s@[j]),
{
    let mut b: usize = len - 1;
    while b > a
        invariant
            len == s@.len(),
            a <= b < len,
            !is_space(s@[a as int]),
            forall|j: int| b < j < len ==> is_space(s@[j]),
        decreases b,
    {
        if !is_space_char(s.get_char(b)) {
            return b;
        }
        b -= 1;
    }
    b
}

/// Strips leading and trailing whitespace.
pub fn trim_str(s: &str) -> (r: String)
    ensures
        r@ == trim_spec(s@),
{
    let len = s.unicode_len();
    let a = first_non_space(s, len);
    if a == len {
        proof {
            lemma_trim_all_space(s@);
        }
        return String::new();
    }
    let b = last_non_space(s, len, a);
    proof {
        lemma_trim_bounds(s@, a as int, b as int);
    }
    s.substring_char(a, b + 1).to_owned()
}

/// `s` with every occurrence of `pat` replaced by `rep`, scanning left to
/// right; an empty `pat` leaves `s` unchanged.
pub open spec fn replace_all(s: Seq<char>, pat: Seq<char>, rep: Seq<char>) -> Seq<char>
    decreases s.len(),
{
    if pat.len() == 0 || s.len() < pat.len() {
        s
    } else if s.subrange(0, pat.len() as int) == pat {
        rep + replace_all(s.subrange(pat.len() as int, s.len() as int), pat, rep)
    } else {
        seq![s[0]] + replace_all(s.drop_first(), pat, rep)
    }
}

/// Replaces every occurrence of `pat` in `s` by `rep`.
pub fn replace_all_str(s: &str, pat: &str, rep: &str) -> (r: String)
    ensures
        r@ == replace_all(s@, pat@, rep@),
{
    let len = s.unicode_len();
    let plen = pat.unicode_len();
    let mut out = String::new();
    if plen == 0 {
        let whole = s.substring_char(0, len);
        proof {
            assert(s@.subrange(0, s@.len() as int) =~= s@);
        }
        return whole.to_owned();
    }
    proof {
        assert(s@.subrange(0, len as int) =~= s@);
        assert(Seq::<char>::empty() + replace_all(s@, pat@, rep@) =~= replace_all(s@, pat@, rep@));
    }
    let mut i: usize = 0;
    while i < len
        invariant
            len == s@.len(),
            plen == pat@.len(),
            plen > 0,
            0 <= i <= len,
            replace_all(s@, pat@, rep@) == out@ + replace_all(
                s@.subrange(i as int, len as int),
                pat@,
                rep@,
            ),
        decreases len - i,
    {
        let ghost rest = s@.subrange(i as int, len as int);
        if plen <= len - i && matches_at_exec(s, pat, i) {
            out.append(rep);
            proof {
                assert(rest.subrange(0, pat@.len() as int) =~= s@.subrange(
                    i as int,
                    i + pat@.len() as int,
                ));
                assert(rest.subrange(pat@.len() as int, rest.len() as int) =~= s@.subrange(
                    i + pat@.len() as int,
                    len as int,
                ));
            }
            i += plen;
        } else {
            push_char(&mut out, s.get_char(i));
            proof {
                assert(rest.len() >= 1);
                if rest.len() >= pat@.len() && rest.subrange(0, pat@.len() as int) == pat@ {
                    assert(matches_at(s@, pat@, i as int)) by {
                        assert(s@.subrange(i as int, i + pat@.len() as int) =~= rest.subrange(
                            0,
                            pat@.len() as int,
                        ));
                    }
                    assert(false);
                }
                assert(rest.drop_first() =~= s@.subrange(i + 1, len as int));
                assert(seq![rest[0]] =~= s@.subrange(i as int, i + 1));
                assert(out@ + seq![rest[0]] + replace_all(rest.drop_first(), pat@, rep@) == (out@
                    + seq![rest[0]]) + replace_all(rest.drop_first(), pat@, rep@));
            }
            i += 1;
        }
    }
    proof {
        assert(s@.subrange(len as int, len as int) =~= Seq::<char>::empty());
        assert(out@ + Seq::<char>::empty() =~= out@);
    }
    out
}

/// Number of occurrences of `pat` in `s`, counted left to right without
/// overlap; zero when `pat` is empty.
pub open spec fn count_occurrences(s: Seq<char>, pat: Seq<char>) -> int
    decreases s.len(),
{
    if pat.len() == 0 || s.len() < pat.len() {
        0
    } else if s.subrange(0, pat.len() as int) == pat {
        1 + count_occurrences(s.subrange(pat.len() as int, s.len() as int), pat)
    } else {
        count_occurrences(s.drop_first(), pat)
    }
}

/// Counts the occurrences of `pat` in `s`.
pub fn count_occurrences_str(s: &str, pat: &str) -> (r: usize)
    ensures
        r == count_occurrences(s@, pat@),
{
    let len = s.unicode_len();
    let plen = pat.unicode_len();
    let mut cnt: usize = 0;
    if plen == 0 {
        return 0;
    }
    proof {
        assert(s@.subrange(0, len as int) =~= s@);
    }
    let mut i: usize = 0;
    while i < len
        invariant
            len == s@.len(),
            plen == pat@.len(),
            plen > 0,
            0 <= i <= len,
            cnt + count_occurrences(s@.subrange(i as int, len as int), pat@) == count_occurrences(
                s@,
                pat@,
            ),
            cnt <= i,
        decreases len - i,
    {
        let ghost rest = s@.subrange(i as int, len as int);
        if plen <= len - i && matches_at_exec(s, pat, i) {
            proof {
                assert(rest.subrange(0, pat@.len() as int) =~= s@.subrange(
                    i as int,
                    i + pat@.len() as int,
                ));
                assert(rest.subrange(pat@.len() as int, rest.len() as int) =~= s@.subrange(
                    i + pat@.len() as int,
                    len as int,
                ));
            }
            cnt += 1;
            i += plen;
        } else {
            proof {
                if rest.len() >= pat@.len() && rest.subrange(0, pat@.len() as int) == pat@ {
                    assert(matches_at(s@, pat@, i as int)) by {
                        assert(s@.subrange(i as int, i + pat@.len() as int) =~= rest.subrange(
                            0,
                            pat@.len() as int,
                        ));
                    }
                    assert(false);
                }
                assert(rest.drop_first() =~= s@.subrange(i + 1, len as int));
            }
            i += 1;
        }
    }
    proof {
        assert(s@.subrange(len as int, len as int) =~= Seq::<char>::empty());
    }
    cnt
}

} // verus!

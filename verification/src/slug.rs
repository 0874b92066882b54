//! URL slugs for organizations.
use vstd::prelude::*;

use crate::text::{
    all_ascii, ascii_lower, char_is_ascii_alphanumeric, int_text, is_ascii_alphanumeric,
    is_ascii_upper, no_ascii_upper, owned, push_int, push_str, string_from_chars, to_lowercase,
    unicode_lowercase,
};

verus! {

/// Slug-building pass over lower-cased text: ASCII letters and digits are
/// kept; every other run of characters becomes one `-`, except before the
/// first kept character. Returns the slug so far and whether it ends in a
/// dash that was just added.
pub open spec fn slug_scan(l: Seq<char>) -> (Seq<char>, bool)
    decreases l.len(),
{
    if l.len() == 0 {
        (Seq::empty(), false)
    } else {
        let (s, last_dash) = slug_scan(l.drop_last());
        let c = l.last();
        if is_ascii_alphanumeric(c) {
            (s.push(c), false)
        } else if !last_dash && s.len() > 0 {
            (s.push('-'), true)
        } else {
            (s, last_dash)
        }
    }
}

/// `s` without trailing dashes.
pub open spec fn strip_trailing_dashes(s: Seq<char>) -> Seq<char>
    decreases s.len(),
{
    if s.len() > 0 && s.last() == '-' {
        strip_trailing_dashes(s.drop_last())
    } else {
        s
    }
}

/// The slug of already lower-cased text: `"org"` when nothing is left.
pub open spec fn slug_of_lowercase(l: Seq<char>) -> Seq<char> {
    let s = strip_trailing_dashes(slug_scan(l).0);
    if s.len() == 0 {
        "org"@
    } else {
        s
    }
}

/// The slug of a name: its Unicode lower-case form, reduced to ASCII
/// letters, digits and single dashes.
pub open spec fn spec_slugify(input: Seq<char>) -> Seq<char> {
    slug_of_lowercase(unicode_lowercase(input))
}

/// Reduces already lower-cased text to a slug (see `slug_of_lowercase`).
pub fn slug_from_lowercase(lower: &str) -> (r: String)
    ensures
        r@ == slug_of_lowercase(lower@),
{
    let mut slug: Vec<char> = Vec::new();
    let mut last_dash = false;
    for c in it: lower.chars()
        invariant
            it.seq() == lower@,
            (slug@, last_dash) == slug_scan(lower@.take(it.index() as int)),
    {
        proof {
            assert(lower@.take(it.index() + 1).drop_last() =~= lower@.take(it.index() as int));
            assert(lower@.take(it.index() + 1).last() == c);
        }
        if char_is_ascii_alphanumeric(c) {
            slug.push(c);
            last_dash = false;
        } else if !last_dash && slug.len() > 0 {
            slug.push('-');
            last_dash = true;
        }
    }
    proof {
        assert(lower@.take(lower@.len() as int) =~= lower@);
    }
    let ghost scanned = slug@;
    while slug.len() > 0 && slug[slug.len() - 1] == '-'
        invariant
            strip_trailing_dashes(scanned) == strip_trailing_dashes(slug@),
        decreases slug.len(),
    {
        let ghost before = slug@;
        slug.pop();
        proof {
            assert(slug@ =~= before.drop_last());
        }
    }
    if slug.len() == 0 {
        owned("org")
    } else {
        string_from_chars(&slug)
    }
}

/// Turns an organization name into a URL slug: lower-cased, ASCII letters
/// and digits kept, other runs of characters collapsed into single dashes,
/// no leading or trailing dash, `"org"` when nothing is left. The result is
/// a well-formed slug without capitals, and such a slug is its own slug:
/// slugifying twice gives what slugifying once gives.
pub fn slugify(input: &str) -> (r: String)
    ensures
        r@ == spec_slugify(input@),
        is_lower_slug(r@),
        is_lower_slug(input@) ==> r@ == input@,
        all_ascii(input@) ==> r@ == slug_of_lowercase(ascii_lower(input@)),
{
    let lower = to_lowercase(input);
    proof {
        lemma_slug_well_formed(input@);
        lemma_slug_keeps_lower_case(lower@);
        if is_lower_slug(input@) {
            assert(all_ascii(input@)) by {
                assert forall|i: int| 0 <= i < input@.len() implies (input@[i] as u32) < 128 by {
                    assert(is_ascii_alphanumeric(input@[i]) || input@[i] == '-');
                }
            }
            assert(ascii_lower(input@) =~= input@) by {
                assert forall|i: int| 0 <= i < input@.len() implies ascii_lower(input@)[i] == input@[i] by {
                    assert(!is_ascii_upper(input@[i]));
                }
            }
            lemma_slug_fixed_point(input@);
        }
    }
    slug_from_lowercase(lower.as_str())
}

/// The search for a free organization slug: take a candidate, or try one
/// (and the number of the candidate after it).
pub enum SlugSearch {
    Take(String),
    Try { candidate: String, next: i64 },
}

/// The search starts by trying the name's slug, then `slug-2`.
pub fn slug_search_start(name: &str) -> (s: SlugSearch)
    ensures
        s matches SlugSearch::Try { candidate, next } && candidate@ == spec_slugify(name@) && next == 2,
{
    SlugSearch::Try { candidate: slugify(name), next: 2 }
}

/// After asking whether `candidate` is taken: a free candidate is taken;
/// otherwise `base-next` is tried, then `base-(next + 1)`.
pub fn slug_search_next(base: &str, candidate: String, next: i64, taken: bool) -> (s: SlugSearch)
    requires
        next < i64::MAX,
    ensures
        !taken ==> (s matches SlugSearch::Take(c) && c@ == candidate@),
        taken ==> (s matches SlugSearch::Try { candidate: c, next: m } && c@ == base@ + "-"@
            + int_text(next as int) && m == next + 1),
{
    if taken {
        SlugSearch::Try { candidate: slug_candidate(base, next), next: next + 1 }
    } else {
        SlugSearch::Take(candidate)
    }
}

/// The `n`-th candidate slug tried after `base` is taken: `base-n`.
pub fn slug_candidate(base: &str, n: i64) -> (r: String)
    ensures
        r@ == base@ + "-"@ + int_text(n as int),
{
    let mut s = owned(base);
    push_str(&mut s, "-");
    push_int(&mut s, n);
    s
}

} // verus!

verus! {

/// A well-formed slug: not empty, only ASCII letters, digits and dashes,
/// no dash at either end and never two dashes in a row.
pub open spec fn is_slug(s: Seq<char>) -> bool {
    &&& s.len() > 0
    &&& forall|i: int| 0 <= i < s.len() ==> (is_ascii_alphanumeric(#[trigger] s[i]) || s[i] == '-')
    &&& s[0] != '-'
    &&& s.last() != '-'
    &&& forall|i: int| 0 <= i < s.len() - 1 ==> !(#[trigger] s[i] == '-' && s[i + 1] == '-')
}

spec fn scan_ok(s: Seq<char>, last_dash: bool) -> bool {
    &&& last_dash == (s.len() > 0 && s.last() == '-')
    &&& forall|i: int| 0 <= i < s.len() ==> (is_ascii_alphanumeric(#[trigger] s[i]) || s[i] == '-')
    &&& s.len() > 0 ==> s[0] != '-'
    &&& forall|i: int| 0 <= i < s.len() - 1 ==> !(#[trigger] s[i] == '-' && s[i + 1] == '-')
}

proof fn lemma_scan_ok(l: Seq<char>)
    ensures
        scan_ok(slug_scan(l).0, slug_scan(l).1),
    decreases l.len(),
{
    if l.len() > 0 {
        lemma_scan_ok(l.drop_last());
        let (s, d) = slug_scan(l.drop_last());
        let c = l.last();
        if is_ascii_alphanumeric(c) {
            let t = s.push(c);
            assert forall|i: int| 0 <= i < t.len() - 1 implies !(#[trigger] t[i] == '-' && t[i + 1]
                == '-') by {
                if i < s.len() - 1 {
                    assert(t[i] == s[i] && t[i + 1] == s[i + 1]);
                }
            }
            assert forall|i: int| 0 <= i < t.len() implies (is_ascii_alphanumeric(#[trigger] t[i])
                || t[i] == '-') by {
                if i < s.len() {
                    assert(t[i] == s[i]);
                }
            }
        } else if !d && s.len() > 0 {
            let t = s.push('-');
            assert forall|i: int| 0 <= i < t.len() - 1 implies !(#[trigger] t[i] == '-' && t[i + 1]
                == '-') by {
                if i < s.len() - 1 {
                    assert(t[i] == s[i] && t[i + 1] == s[i + 1]);
                } else {
                    assert(t[i] == s.last());
                }
            }
            assert forall|i: int| 0 <= i < t.len() implies (is_ascii_alphanumeric(#[trigger] t[i])
                || t[i] == '-') by {
                if i < s.len() {
                    assert(t[i] == s[i]);
                }
            }
        }
    }
}

proof fn lemma_strip_prefix(s: Seq<char>)
    ensures
        exists|k: int| 0 <= k <= s.len() && strip_trailing_dashes(s) == s.take(k),
        strip_trailing_dashes(s).len() > 0 ==> strip_trailing_dashes(s).last() != '-',
    decreases s.len(),
{
    if s.len() > 0 && s.last() == '-' {
        lemma_strip_prefix(s.drop_last());
        let k = choose|k: int|
            0 <= k <= s.drop_last().len() && strip_trailing_dashes(s.drop_last()) == s.drop_last().take(k);
        assert(s.drop_last().take(k) =~= s.take(k));
    } else {
        assert(s.take(s.len() as int) =~= s);
    }
}

/// Every slug is well formed, whatever the name it was made from.
pub proof fn lemma_slug_well_formed(input: Seq<char>)
    ensures
        is_slug(spec_slugify(input)),
{
    let l = unicode_lowercase(input);
    lemma_scan_ok(l);
    let s = slug_scan(l).0;
    lemma_strip_prefix(s);
    let t = strip_trailing_dashes(s);
    if t.len() == 0 {
        reveal_strlit("org");
        assert(is_ascii_alphanumeric("org"@[0]));
        assert(is_ascii_alphanumeric("org"@[1]));
        assert(is_ascii_alphanumeric("org"@[2]));
    } else {
        let k = choose|k: int| 0 <= k <= s.len() && t == s.take(k);
        assert forall|i: int| 0 <= i < t.len() implies (is_ascii_alphanumeric(#[trigger] t[i])
            || t[i] == '-') by {
            assert(t[i] == s[i]);
        }
        assert forall|i: int| 0 <= i < t.len() - 1 implies !(#[trigger] t[i] == '-' && t[i + 1]
            == '-') by {
            assert(t[i] == s[i] && t[i + 1] == s[i + 1]);
        }
        assert(t[0] == s[0]);
    }
}

} // verus!

verus! {

proof fn lemma_scan_keeps_slug(s: Seq<char>)
    requires
        forall|i: int| 0 <= i < s.len() ==> (is_ascii_alphanumeric(#[trigger] s[i]) || s[i] == '-'),
        s.len() > 0 ==> s[0] != '-',
        forall|i: int| 0 <= i < s.len() - 1 ==> !(#[trigger] s[i] == '-' && s[i + 1] == '-'),
    ensures
        slug_scan(s) == (s, s.len() > 0 && s.last() == '-'),
    decreases s.len(),
{
    if s.len() > 0 {
        let p = s.drop_last();
        assert forall|i: int| 0 <= i < p.len() implies (is_ascii_alphanumeric(#[trigger] p[i])
            || p[i] == '-') by {
            assert(p[i] == s[i]);
        }
        assert forall|i: int| 0 <= i < p.len() - 1 implies !(#[trigger] p[i] == '-' && p[i + 1]
            == '-') by {
            assert(p[i] == s[i] && p[i + 1] == s[i + 1]);
        }
        if p.len() > 0 {
            assert(p[0] == s[0]);
        }
        lemma_scan_keeps_slug(p);
        assert(p.push(s.last()) =~= s);
        if !is_ascii_alphanumeric(s.last()) {
            assert(s.len() > 1);
            assert(!(s[s.len() - 2] == '-' && s[s.len() - 1] == '-'));
            assert(p.last() == s[s.len() - 2]);
        }
    }
}

/// Reducing a well-formed slug leaves it unchanged: text that is already a
/// slug is its own slug.
pub proof fn lemma_slug_fixed_point(s: Seq<char>)
    requires
        is_slug(s),
    ensures
        slug_of_lowercase(s) == s,
{
    lemma_scan_keeps_slug(s);
}

} // verus!

verus! {

/// A well-formed slug without capital letters.
pub open spec fn is_lower_slug(s: Seq<char>) -> bool {
    is_slug(s) && no_ascii_upper(s)
}

proof fn lemma_scan_keeps_lower_case(l: Seq<char>)
    requires
        no_ascii_upper(l),
    ensures
        no_ascii_upper(slug_scan(l).0),
    decreases l.len(),
{
    if l.len() > 0 {
        let p = l.drop_last();
        assert forall|i: int| 0 <= i < p.len() implies !is_ascii_upper(#[trigger] p[i]) by {
            assert(p[i] == l[i]);
        }
        lemma_scan_keeps_lower_case(p);
        let s = slug_scan(p).0;
        let c = l.last();
        assert(!is_ascii_upper(c));
        assert forall|i: int| 0 <= i < s.len() + 1 implies !is_ascii_upper(#[trigger] s.push(c)[i]) by {
            if i < s.len() {
                assert(s.push(c)[i] == s[i]);
            }
        }
        assert forall|i: int| 0 <= i < s.len() + 1 implies !is_ascii_upper(#[trigger] s.push('-')[i]) by {
            if i < s.len() {
                assert(s.push('-')[i] == s[i]);
            }
        }
    }
}

/// Text without capitals reduces to a slug without capitals.
proof fn lemma_slug_keeps_lower_case(l: Seq<char>)
    requires
        no_ascii_upper(l),
    ensures
        no_ascii_upper(slug_of_lowercase(l)),
{
    lemma_scan_keeps_lower_case(l);
    let s = slug_scan(l).0;
    lemma_strip_prefix(s);
    let t = strip_trailing_dashes(s);
    if t.len() == 0 {
        reveal_strlit("org");
        assert forall|i: int| 0 <= i < "org"@.len() implies !is_ascii_upper(#[trigger] "org"@[i]) by {}
    } else {
        let k = choose|k: int| 0 <= k <= s.len() && t == s.take(k);
        assert forall|i: int| 0 <= i < t.len() implies !is_ascii_upper(#[trigger] t[i]) by {
            assert(t[i] == s[i]);
        }
    }
}

} // verus!

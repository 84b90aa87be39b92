//! Validation of subscriber display names and email addresses.
//!
//! A display name is accepted when it is non-empty after trimming whitespace,
//! spans at most 256 grapheme clusters, and contains none of a small set of
//! forbidden characters. An email address is accepted when it has the shape
//! `local-part@domain` with exactly one `@`, sensible characters on both
//! sides, no leading, trailing or doubled dots, and a bounded length.
use unicode_segmentation::UnicodeSegmentation;
use vstd::prelude::*;

verus! {

/// Upper bound on a display name, in grapheme clusters.
pub const MAX_NAME_GRAPHEMES: usize = 256;

/// Upper bound on an email address, in characters.
pub const MAX_EMAIL_CHARS: usize = 320;

/// Characters that may not appear in a display name.
pub open spec fn is_forbidden_name_char(c: char) -> bool {
    c == '/' || c == '(' || c == ')' || c == '"' || c == '<' || c == '>' || c == '\\' || c == '{'
        || c == '}'
}

/// The Unicode `White_Space` code points, the set that trimming removes.
pub open spec fn is_whitespace_char(c: char) -> bool {
    let u = c as u32;
    (0x9 <= u && u <= 0xD) || u == 0x20 || u == 0x85 || u == 0xA0 || u == 0x1680 || (0x2000 <= u
        && u <= 0x200A) || u == 0x2028 || u == 0x2029 || u == 0x202F || u == 0x205F || u == 0x3000
}

/// Number of extended grapheme clusters in a string of characters.
pub uninterp spec fn grapheme_count_of(s: Seq<char>) -> nat;

/// A display name is valid when some character survives trimming, the name
/// spans at most [`MAX_NAME_GRAPHEMES`] grapheme clusters, and no character
/// is forbidden.
pub open spec fn name_is_valid(s: Seq<char>) -> bool {
    &&& exists|i: int| 0 <= i < s.len() && !is_whitespace_char(#[trigger] s[i])
    &&& grapheme_count_of(s) <= MAX_NAME_GRAPHEMES
    &&& forall|i: int| 0 <= i < s.len() ==> !is_forbidden_name_char(#[trigger] s[i])
}

/// Relies on `unicode_segmentation::UnicodeSegmentation::graphemes` to count
/// the extended grapheme clusters of a string; the count depends on the
/// characters alone.
#[verifier::external_body]
fn grapheme_count(s: &String) -> (r: usize)
    ensures
        r as nat == grapheme_count_of(s@),
{
    s.graphemes(true).count()
}

/// Whether `c` is one of the characters forbidden in a display name.
fn forbidden_name_char(c: char) -> (r: bool)
    ensures
        r == is_forbidden_name_char(c),
{
    c == '/' || c == '(' || c == ')' || c == '"' || c == '<' || c == '>' || c == '\\' || c == '{'
        || c == '}'
}

/// Whether `c` is a Unicode `White_Space` code point.
fn whitespace_char(c: char) -> (r: bool)
    ensures
        r == is_whitespace_char(c),
{
    let u = c as u32;
    (0x9 <= u && u <= 0xD) || u == 0x20 || u == 0x85 || u == 0xA0 || u == 0x1680 || (0x2000 <= u
        && u <= 0x200A) || u == 0x2028 || u == 0x2029 || u == 0x202F || u == 0x205F || u == 0x3000
}

/// ASCII digit.
pub open spec fn is_digit_char(c: char) -> bool {
    '0' <= c && c <= '9'
}

/// ASCII letter, either case.
pub open spec fn is_letter_char(c: char) -> bool {
    ('A' <= c && c <= 'Z') || ('a' <= c && c <= 'z')
}

/// Characters admitted in the local part of an address, besides dots handled
/// separately: letters, digits and a few common marks. `@` is not among them.
pub open spec fn is_local_char(c: char) -> bool {
    is_digit_char(c) || is_letter_char(c) || c == '.' || c == '_' || c == '%' || c == '+' || c
        == '-'
}

/// Characters admitted in the domain of an address: letters, digits, hyphens
/// and the dots between labels. `@` is not among them.
pub open spec fn is_domain_char(c: char) -> bool {
    is_digit_char(c) || is_letter_char(c) || c == '-' || c == '.'
}

/// A well-formed local part: non-empty, admitted characters only, no leading,
/// trailing or doubled dot.
pub open spec fn local_part_ok(l: Seq<char>) -> bool {
    &&& l.len() >= 1
    &&& forall|i: int| 0 <= i < l.len() ==> is_local_char(#[trigger] l[i])
    &&& l[0] != '.'
    &&& l[l.len() - 1] != '.'
    &&& forall|i: int| 0 <= i < l.len() - 1 ==> !(#[trigger] l[i] == '.' && l[i + 1] == '.')
}

/// A well-formed domain: non-empty, admitted characters only, every label
/// non-empty (no leading, trailing or doubled dot), and no hyphen at either
/// end.
pub open spec fn domain_part_ok(d: Seq<char>) -> bool {
    &&& d.len() >= 1
    &&& forall|i: int| 0 <= i < d.len() ==> is_domain_char(#[trigger] d[i])
    &&& d[0] != '.' && d[0] != '-'
    &&& d[d.len() - 1] != '.' && d[d.len() - 1] != '-'
    &&& forall|i: int| 0 <= i < d.len() - 1 ==> !(#[trigger] d[i] == '.' && d[i + 1] == '.')
}

/// The address splits at position `i`: an `@` there, with a well-formed local
/// part before it and a well-formed domain after it.
pub open spec fn email_split_ok(s: Seq<char>, i: int) -> bool {
    &&& 0 <= i < s.len()
    &&& s[i] == '@'
    &&& local_part_ok(s.subrange(0, i))
    &&& domain_part_ok(s.subrange(i + 1, s.len() as int))
}

/// An email address is valid when it is of bounded length and splits at some
/// `@`. Local and domain characters exclude `@`, so a valid address holds
/// exactly one `@` and the split is unique.
pub open spec fn email_is_valid(s: Seq<char>) -> bool {
    &&& s.len() <= MAX_EMAIL_CHARS
    &&& exists|i: int| email_split_ok(s, i)
}

/// Whether `c` is admitted in a local part.
fn local_char(c: char) -> (r: bool)
    ensures
        r == is_local_char(c),
{
    let u = c as u32;
    (0x30 <= u && u <= 0x39) || (0x41 <= u && u <= 0x5A) || (0x61 <= u && u <= 0x7A) || c == '.'
        || c == '_' || c == '%' || c == '+' || c == '-'
}

/// Whether `c` is admitted in a domain.
fn domain_char(c: char) -> (r: bool)
    ensures
        r == is_domain_char(c),
{
    let u = c as u32;
    (0x30 <= u && u <= 0x39) || (0x41 <= u && u <= 0x5A) || (0x61 <= u && u <= 0x7A) || c == '-'
        || c == '.'
}

/// At most one position can satisfy [`email_split_ok`] when `p` is the only
/// `@` of the string.
proof fn lemma_only_split(s: Seq<char>, p: int)
    requires
        forall|j: int| 0 <= j < s.len() && #[trigger] s[j] == '@' ==> j == p,
    ensures
        forall|i: int| #[trigger] email_split_ok(s, i) ==> i == p,
{
}

/// Decides whether `email` is a valid address: `local-part@domain` with
/// exactly one `@`, admitted characters on both sides, no empty part, no
/// leading, trailing or doubled dots, within [`MAX_EMAIL_CHARS`] characters.
#[verifier::loop_isolation(false)]
pub fn validate_email(email: &String) -> (r: bool)
    ensures
        r == email_is_valid(email@),
{
    let s = email.as_str();
    let n = s.unicode_len();
    if n > MAX_EMAIL_CHARS {
        return false;
    }
    // Locate the first and, if any, the second `@`.
    let mut first: usize = n;
    let mut second: usize = n;
    let mut i: usize = 0;
    while i < n
        invariant
            n == s@.len(),
            0 <= i <= n,
            first <= n && second <= n,
            first == n ==> second == n && forall|j: int| 0 <= j < i ==> s@[j] != '@',
            first < n ==> first < i && s@[first as int] == '@' && forall|j: int|
                0 <= j < first ==> s@[j] != '@',
            first < n && second == n ==> forall|j: int| first < j < i ==> s@[j] != '@',
            second < n ==> first < second < i && s@[second as int] == '@',
        decreases n - i,
    {
        let c = s.get_char(i);
        if c == '@' {
            if first == n {
                first = i;
            } else if second == n {
                second = i;
            }
        }
        i += 1;
    }
    if first == n {
        // No `@` at all: no position can split the address.
        assert(forall|i: int| !email_split_ok(s@, i));
        return false;
    }
    if second < n {
        // Two `@`s: whichever position splits, one of them lands in the local
        // part or in the domain, where `@` is not admitted.
        assert forall|i: int| !email_split_ok(s@, i) by {
            if email_split_ok(s@, i) {
                if i < second {
                    assert(s@.subrange(i + 1, s@.len() as int)[second - i - 1] == '@');
                } else {
                    assert(s@.subrange(0, i)[first as int] == '@');
                }
            }
        }
        return false;
    }
    assert(forall|j: int| 0 <= j < s@.len() && #[trigger] s@[j] == '@' ==> j == first);
    proof {
        lemma_only_split(s@, first as int);
    }
    let p = first;
    let ghost local = s@.subrange(0, p as int);
    let ghost dom = s@.subrange(p as int + 1, s@.len() as int);
    if p == 0 {
        assert(!local_part_ok(local));
        return false;
    }
    if p + 1 == n {
        assert(!domain_part_ok(dom));
        return false;
    }
    // Check the local part.
    let mut j: usize = 0;
    while j < p
        invariant
            n == s@.len(),
            0 < p < n,
            local == s@.subrange(0, p as int),
            0 <= j <= p,
            forall|k: int| 0 <= k < j ==> is_local_char(#[trigger] local[k]),
            forall|k: int| 0 <= k < j ==> !(k == 0 && local[k] == '.'),
            forall|k: int| 0 <= k < j ==> !(k == p - 1 && local[k] == '.'),
            forall|k: int|
                0 <= k < j ==> (k + 1 < p ==> !(#[trigger] local[k] == '.' && local[k + 1]
                    == '.')),
        decreases p - j,
    {
        let c = s.get_char(j);
        assert(local[j as int] == s@[j as int]);
        if !local_char(c) {
            assert(!local_part_ok(local));
            return false;
        }
        if c == '.' && (j == 0 || j == p - 1) {
            assert(!local_part_ok(local));
            return false;
        }
        if c == '.' && j + 1 < p {
            let c2 = s.get_char(j + 1);
            if c2 == '.' {
                assert(local[j as int + 1] == s@[j as int + 1]);
                assert(!local_part_ok(local));
                return false;
            }
        }
        j += 1;
    }
    assert(local_part_ok(local));
    // Check the domain.
    let mut j: usize = p + 1;
    while j < n
        invariant
            n == s@.len(),
            0 < p && p + 1 < n,
            dom == s@.subrange(p as int + 1, s@.len() as int),
            p + 1 <= j <= n,
            forall|k: int| 0 <= k < j - p - 1 ==> is_domain_char(#[trigger] dom[k]),
            forall|k: int| 0 <= k < j - p - 1 ==> !(k == 0 && (dom[k] == '.' || dom[k] == '-')),
            forall|k: int|
                0 <= k < j - p - 1 ==> !(k == dom.len() - 1 && (dom[k] == '.' || dom[k] == '-')),
            forall|k: int|
                0 <= k < j - p - 1 ==> (k + 1 < dom.len() ==> !(#[trigger] dom[k] == '.' && dom[k
                    + 1] == '.')),
        decreases n - j,
    {
        let c = s.get_char(j);
        assert(dom[j - p - 1] == s@[j as int]);
        if !domain_char(c) {
            assert(!domain_part_ok(dom));
            return false;
        }
        if (c == '.' || c == '-') && (j == p + 1 || j == n - 1) {
            assert(!domain_part_ok(dom));
            return false;
        }
        if c == '.' && j + 1 < n {
            let c2 = s.get_char(j + 1);
            if c2 == '.' {
                assert(dom[j - p] == s@[j as int + 1]);
                assert(!domain_part_ok(dom));
                return false;
            }
        }
        j += 1;
    }
    assert(domain_part_ok(dom));
    assert(email_split_ok(s@, p as int));
    true
}

/// Decides whether `name` is an acceptable subscriber display name.
pub fn validate_name(name: &String) -> (r: bool)
    ensures
        r == name_is_valid(name@),
{
    let s = name.as_str();
    let n = s.unicode_len();
    let mut i: usize = 0;
    let mut seen_non_whitespace: bool = false;
    while i < n
        invariant
            n == s@.len(),
            s@ == name@,
            0 <= i <= n,
            seen_non_whitespace == exists|j: int|
                0 <= j < i && !is_whitespace_char(#[trigger] s@[j]),
            forall|j: int| 0 <= j < i ==> !is_forbidden_name_char(#[trigger] s@[j]),
        decreases n - i,
    {
        let c = s.get_char(i);
        if forbidden_name_char(c) {
            return false;
        }
        if !whitespace_char(c) {
            seen_non_whitespace = true;
        }
        i += 1;
    }
    if !seen_non_whitespace {
        return false;
    }
    grapheme_count(name) <= MAX_NAME_GRAPHEMES
}

} // verus!

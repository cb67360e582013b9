//! Character classes and trimming, as the standard library defines them.

use vstd::prelude::*;

verus! {

/// Whether `c` has the Unicode property `White_Space`: what
/// `char::is_whitespace` answers, and the class that `str::trim` removes.
pub uninterp spec fn is_white_space(c: char) -> bool;

/// Whether `c` belongs to one of the Unicode number categories: what
/// `char::is_numeric` answers.
pub uninterp spec fn is_numeric(c: char) -> bool;

/// `s` without its leading white space.
pub open spec fn trimmed_start(s: Seq<char>) -> Seq<char>
    decreases s.len(),
{
    if s.len() > 0 && is_white_space(s.first()) {
        trimmed_start(s.drop_first())
    } else {
        s
    }
}

/// `s` without its trailing white space.
pub open spec fn trimmed_end(s: Seq<char>) -> Seq<char>
    decreases s.len(),
{
    if s.len() > 0 && is_white_space(s.last()) {
        trimmed_end(s.drop_last())
    } else {
        s
    }
}

/// `s` without its leading and trailing white space.
pub open spec fn trimmed(s: Seq<char>) -> Seq<char> {
    trimmed_end(trimmed_start(s))
}

/// Every character of `s` is white space.
pub open spec fn is_blank(s: Seq<char>) -> bool {
    forall|i: int| 0 <= i < s.len() ==> is_white_space(#[trigger] s[i])
}

/// Calls `str::trim`. Trusted: the result is the input without the white
/// space at its two ends, so that it neither starts nor ends with any; white
/// space is the Unicode property that the standard library documents for
/// this method.
#[verifier::external_body]
pub(crate) fn trim(s: &str) -> (r: &str)
    ensures
        r@ == trimmed(s@),
        r@.len() > 0 ==> !is_white_space(r@.first()) && !is_white_space(r@.last()),
{
    s.trim()
}

/// Calls `char::is_numeric`. Trusted: the answer is the Unicode number class,
/// which holds the ten ASCII digits.
#[verifier::external_body]
pub(crate) fn char_is_numeric(c: char) -> (r: bool)
    ensures
        r == is_numeric(c),
        '0' <= c <= '9' ==> r,
{
    c.is_numeric()
}

/// What is left of an all-white-space text after trimming is empty.
pub proof fn lemma_blank_trims_to_empty(s: Seq<char>)
    requires
        is_blank(s),
    ensures
        trimmed(s).len() == 0,
    decreases s.len(),
{
    if s.len() > 0 {
        let rest = s.drop_first();
        assert forall|i: int| 0 <= i < rest.len() implies is_white_space(#[trigger] rest[i]) by {
            assert(rest[i] == s[i + 1]);
        }
        lemma_blank_trims_to_empty(rest);
    }
}

/// A text whose trimmed form is empty holds nothing but white space.
pub proof fn lemma_empty_trim_is_blank(s: Seq<char>)
    requires
        trimmed(s).len() == 0,
    ensures
        is_blank(s),
    decreases s.len(),
{
    if s.len() > 0 {
        if is_white_space(s.first()) {
            let rest = s.drop_first();
            lemma_empty_trim_is_blank(rest);
            assert forall|i: int| 0 <= i < s.len() implies is_white_space(#[trigger] s[i]) by {
                if i > 0 {
                    assert(s[i] == rest[i - 1]);
                }
            }
        } else {
            lemma_trimmed_end_keeps_first(s);
        }
    }
}

/// Trimming the end of a text that starts with a visible character leaves that
/// character in place.
proof fn lemma_trimmed_end_keeps_first(s: Seq<char>)
    requires
        s.len() > 0,
        !is_white_space(s.first()),
    ensures
        trimmed_end(s).len() > 0,
    decreases s.len(),
{
    if is_white_space(s.last()) {
        assert(s.len() > 1);
        let rest = s.drop_last();
        assert(rest.first() == s.first());
        lemma_trimmed_end_keeps_first(rest);
    }
}

} // verus!

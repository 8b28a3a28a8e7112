//! Naming rules: the URL-friendly slug derived from an organization name
//! and the normalized form under which a domain URL is stored.

use crate::text::char_alphanumeric;
use crate::text::char_whitespace;
use crate::text::is_alphanumeric_char;
use crate::text::is_whitespace_char;
use crate::text::lower_of;
use crate::text::lowercase;
use crate::text::push_char;
use crate::text::trim_end_slashes;
use crate::text::trim_trailing_slashes;
use vstd::prelude::*;
use vstd::string::StrSliceExecFns;

verus! {

/// The slug characters of a (lower-cased) name: alphanumerics are kept,
/// whitespace is dropped, and every other character becomes `'-'`.
pub open spec fn slug_chars(s: Seq<char>) -> Seq<char>
    decreases s.len(),
{
    if s.len() == 0 {
        Seq::empty()
    } else {
        (if char_alphanumeric(s[0]) {
            seq![s[0]]
        } else if char_whitespace(s[0]) {
            Seq::empty()
        } else {
            seq!['-']
        }) + slug_chars(s.drop_first())
    }
}

/// Derive the URL-friendly slug of an organization name: the name is
/// lower-cased, then reduced to its slug characters.
pub fn slug_from_name(name: &str) -> (r: String)
    ensures
        r@ == slug_chars(lower_of(name@)),
{
    let low = lowercase(name);
    let c = low.as_str();
    let len = c.unicode_len();
    let mut out = String::new();
    let mut i: usize = 0;
    assert(c@.subrange(0, len as int) =~= c@);
    while i < len
        invariant
            i <= len,
            len == c@.len(),
            slug_chars(c@) == out@ + slug_chars(c@.subrange(i as int, len as int)),
        decreases len - i,
    {
        let ch = c.get_char(i);
        let ghost tail = c@.subrange(i as int, len as int);
        proof {
            assert(tail.drop_first() =~= c@.subrange(i + 1, len as int));
            assert(tail[0] == c@[i as int]);
        }
        if is_alphanumeric_char(ch) {
            push_char(&mut out, ch);
        } else if is_whitespace_char(ch) {
        } else {
            push_char(&mut out, '-');
        }
        assert(slug_chars(c@) == out@ + slug_chars(c@.subrange(i + 1, len as int)));
        i += 1;
    }
    assert(c@.subrange(len as int, len as int) =~= Seq::<char>::empty());
    assert(out@ =~= slug_chars(c@));
    out
}

/// Normalize a domain URL for storage: trailing slashes removed, then
/// lower-cased.
pub fn normalize_url(url: &str) -> (r: String)
    ensures
        r@ == lower_of(trim_end_slashes(url@)),
{
    let trimmed = trim_trailing_slashes(url);
    lowercase(trimmed.as_str())
}

} // verus!

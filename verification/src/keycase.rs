//! Display form of setting keys: underscores become spaces, then the
//! phrase is title-cased.

use vstd::prelude::*;
use vstd::string::{StringExecFns, StrSliceExecFns};

verus! {

/// A phrase with every underscore replaced by a space.
pub open spec fn spaced(s: Seq<char>) -> Seq<char> {
    s.map_values(|c: char| if c == '_' { ' ' } else { c })
}

/// The title-cased form of a phrase, exactly as the `titlecase` crate
/// renders it: a function of the input characters alone.
pub uninterp spec fn title_of(s: Seq<char>) -> Seq<char>;

/// Relies on titlecase::titlecase: capitalizes the words of an English
/// phrase; deterministic, depending on the input characters alone.
#[verifier::external_body]
fn titlecase_str(s: &str) -> (r: String)
    ensures
        r@ == title_of(s@),
{
    titlecase::titlecase(s)
}

/// Replaces every underscore in `s` with a space.
pub fn underscore_to_space(s: &str) -> (r: String)
    ensures
        r@ == spaced(s@),
{
    let n: usize = s.unicode_len();
    let mut out = String::new();
    let mut start: usize = 0;
    let mut i: usize = 0;
    while i < n
        invariant
            n == s@.len(),
            start <= i <= n,
            out@ == spaced(s@.subrange(0, start as int)),
            forall|j: int| start <= j < i ==> s@[j] != '_',
        decreases n - i,
    {
        if s.get_char(i) == '_' {
            out.append(s.substring_char(start, i));
            out.append(" ");
            proof {
                reveal_strlit(" ");
                assert(out@ =~= spaced(s@.subrange(0, i as int + 1)));
            }
            start = i + 1;
        }
        i = i + 1;
    }
    out.append(s.substring_char(start, n));
    proof {
        assert(out@ =~= spaced(s@));
    }
    out
}

/// The display form of a setting key: underscores replaced by spaces,
/// then the words title-cased.
pub fn display_key(key: &str) -> (r: String)
    ensures
        r@ == title_of(spaced(key@)),
{
    let opened = underscore_to_space(key);
    titlecase_str(opened.as_str())
}

} // verus!

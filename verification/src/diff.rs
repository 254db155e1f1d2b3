//! The diff handed to a provider: the unstaged diff followed by the staged
//! one, cut to a bounded length.

use crate::text::{chars_of, string_of};
use vstd::prelude::*;

verus! {

/// The most characters of a diff that are kept.
pub const DIFF_LIMIT: usize = 8000;

/// What is put after a diff that was cut.
pub open spec fn truncation_marker() -> Seq<char> {
    "\n... [Diff truncated due to length limitations]"@
}

/// `full`, cut to its first `DIFF_LIMIT` characters and marked where it is
/// longer than that.
pub open spec fn bounded(full: Seq<char>) -> Seq<char> {
    if full.len() > DIFF_LIMIT {
        full.take(DIFF_LIMIT as int) + truncation_marker()
    } else {
        full
    }
}

/// The diff made of the unstaged and the staged changes.
pub open spec fn combined_diff(unstaged: Seq<char>, staged: Seq<char>) -> Seq<char> {
    bounded(unstaged + staged)
}

/// Joins the unstaged and the staged diff, unstaged first, and bounds the
/// result: up to `DIFF_LIMIT` characters it is returned whole; a longer one
/// is cut to exactly its first `DIFF_LIMIT` characters, and the marker is
/// put after them.
pub fn combine_diff(unstaged: &str, staged: &str) -> (r: String)
    ensures
        r@ == combined_diff(unstaged@, staged@),
        (unstaged@ + staged@).len() <= DIFF_LIMIT ==> r@ == unstaged@ + staged@,
        (unstaged@ + staged@).len() > DIFF_LIMIT ==> {
            &&& r@.len() == DIFF_LIMIT + truncation_marker().len()
            &&& r@ == (unstaged@ + staged@).take(DIFF_LIMIT as int) + truncation_marker()
            &&& r@.take(DIFF_LIMIT as int).is_prefix_of(unstaged@ + staged@)
        },
{
    let first = chars_of(unstaged);
    let second = chars_of(staged);
    let ghost full = unstaged@ + staged@;
    if first.len() > DIFF_LIMIT || second.len() > DIFF_LIMIT - first.len() {
        let from_first = if first.len() > DIFF_LIMIT {
            DIFF_LIMIT
        } else {
            first.len()
        };
        let mut out = string_of(&first, 0, from_first);
        let rest = string_of(&second, 0, DIFF_LIMIT - from_first);
        out.append(rest.as_str());
        assert(out@ =~= full.take(DIFF_LIMIT as int));
        out.append("\n... [Diff truncated due to length limitations]");
        assert(out@.take(DIFF_LIMIT as int) =~= full.take(DIFF_LIMIT as int));
        out
    } else {
        let mut out = String::from_str(unstaged);
        out.append(staged);
        out
    }
}

/// Two diffs that together are longer than the limit come out as the first
/// `DIFF_LIMIT` characters of their concatenation followed by the marker:
/// the length is the limit plus the marker's, what stands before the marker
/// is a prefix of the concatenation, and what follows it is the marker.
pub proof fn long_diff_is_cut_and_marked(unstaged: Seq<char>, staged: Seq<char>)
    requires
        (unstaged + staged).len() > DIFF_LIMIT,
    ensures
        combined_diff(unstaged, staged).len() == DIFF_LIMIT + truncation_marker().len(),
        combined_diff(unstaged, staged).take(DIFF_LIMIT as int).is_prefix_of(unstaged + staged),
        combined_diff(unstaged, staged).skip(DIFF_LIMIT as int) == truncation_marker(),
        combined_diff(unstaged, staged) == (unstaged + staged).take(DIFF_LIMIT as int)
            + truncation_marker(),
{
    let full = unstaged + staged;
    let out = combined_diff(unstaged, staged);
    assert(out.take(DIFF_LIMIT as int) =~= full.take(DIFF_LIMIT as int));
    assert(out.skip(DIFF_LIMIT as int) =~= truncation_marker());
}

/// Two diffs that together stay within the limit come out as their
/// concatenation, unchanged.
pub proof fn short_diff_is_kept(unstaged: Seq<char>, staged: Seq<char>)
    requires
        (unstaged + staged).len() <= DIFF_LIMIT,
    ensures
        combined_diff(unstaged, staged) == unstaged + staged,
{
}

} // verus!

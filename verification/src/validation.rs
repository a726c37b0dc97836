//! The rule that decides whether a candidate name is accepted.

use vstd::prelude::*;
use vstd::string::StrSliceExecFns;

verus! {

/// The least number of characters an accepted name has.
pub const MIN_NAME_LEN: usize = 4;

/// A name is acceptable when it has at least `MIN_NAME_LEN` characters
/// (Unicode scalar values). Nothing is trimmed or normalised, and no
/// character is excluded.
pub open spec fn valid_name(name: Seq<char>) -> bool {
    name.len() >= MIN_NAME_LEN
}

/// Decides whether `candidate` is acceptable.
pub fn is_valid(candidate: &str) -> (accepted: bool)
    ensures
        accepted == valid_name(candidate@),
        accepted == (candidate@.len() >= 4),
{
    candidate.unicode_len() >= MIN_NAME_LEN
}

} // verus!

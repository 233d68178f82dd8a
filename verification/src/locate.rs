//! The repository locator's decisions: which directory to probe for the
//! metadata directory, and which ancestor wins. The probing itself — does
//! the metadata directory exist there? — is filesystem work that stays
//! outside this library; the caller walks upward, collects the answers, and
//! hands them in.

use vstd::prelude::*;

verus! {

use crate::text::{joined, str_ends_with};

/// The metadata directory to probe for a starting point: the point itself
/// when it already denotes the metadata directory, otherwise the metadata
/// directory under it.
pub fn kifi_candidate(provided: &str) -> (r: String)
    ensures
        (provided@ == (".kifi")@ || (provided@.len() >= 6 && provided@.subrange(
            provided@.len() - 6,
            provided@.len() as int,
        ) == ("/.kifi")@)) ==> r@ == provided@,
        !(provided@ == (".kifi")@ || (provided@.len() >= 6 && provided@.subrange(
            provided@.len() - 6,
            provided@.len() as int,
        ) == ("/.kifi")@)) ==> r@ == joined(provided@, (".kifi")@),
{
    proof {
        reveal_strlit(".kifi");
        reveal_strlit("/.kifi");
    }
    let is_whole = {
        let w = str_ends_with(provided, ".kifi");
        w && provided.unicode_len() == 5
    };
    if is_whole || str_ends_with(provided, "/.kifi") {
        proof {
            if provided@.len() == 5 {
                assert(provided@.subrange(0, 5) =~= provided@);
            }
        }
        provided.to_owned()
    } else {
        proof {
            if provided@ == (".kifi")@ {
                assert(provided@.subrange(0, 5) =~= provided@);
            }
        }
        crate::text::join_path(provided, ".kifi")
    }
}

/// The first ancestor at which the probe succeeded, walking from the
/// starting point upward: the index of the nearest directory that holds
/// repository metadata.
pub fn first_repository(has_metadata: &Vec<bool>) -> (r: Option<usize>)
    ensures
        match r {
            Some(i) => i < has_metadata@.len() && has_metadata@[i as int] && (forall|j: int|
                0 <= j < i ==> !has_metadata@[j]),
            None => forall|j: int| 0 <= j < has_metadata@.len() ==> !has_metadata@[j],
        },
{
    let mut i: usize = 0;
    while i < has_metadata.len()
        invariant
            0 <= i <= has_metadata@.len(),
            forall|j: int| 0 <= j < i ==> !has_metadata@[j],
        decreases has_metadata.len() - i,
    {
        if has_metadata[i] {
            return Some(i);
        }
        i += 1;
    }
    None
}

} // verus!

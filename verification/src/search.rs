//! The ordered probe: the first candidate that is present wins.
//!
//! Whether a file is present is whatever the probe answers. A probe may answer
//! differently from one call to the next, as a disk does; the contracts here
//! speak of the answers that were given.

use vstd::prelude::*;

verus! {

/// `probe` can answer "present" for the path `path`.
pub open spec fn accepts<F: Fn(&String) -> bool>(probe: F, path: Seq<char>) -> bool {
    exists|text: String| #[trigger] text@ == path && call_ensures(probe, (&text,), true)
}

/// `probe` can answer "absent" for the path `path`.
pub open spec fn refuses<F: Fn(&String) -> bool>(probe: F, path: Seq<char>) -> bool {
    exists|text: String| #[trigger] text@ == path && call_ensures(probe, (&text,), false)
}

/// `found` is what an ordered probe of `candidates` ends with: the first
/// candidate that was accepted, every one before it having been refused, or
/// nothing where all were refused.
pub open spec fn is_first_match<F: Fn(&String) -> bool>(
    candidates: Seq<Seq<char>>,
    probe: F,
    found: Option<int>,
) -> bool {
    match found {
        Some(index) => {
            &&& 0 <= index < candidates.len()
            &&& accepts(probe, candidates[index])
            &&& forall|j: int| 0 <= j < index ==> refuses(probe, #[trigger] candidates[j])
        },
        None => forall|j: int|
            0 <= j < candidates.len() ==> refuses(probe, #[trigger] candidates[j]),
    }
}

/// Probes the candidates in order and stops at the first that `probe`
/// accepts. The candidates behind it are never probed.
pub fn first_match<F: Fn(&String) -> bool>(candidates: &Vec<String>, probe: F) -> (found: Option<
    usize,
>)
    requires
        forall|i: int| 0 <= i < candidates.len() ==> call_requires(probe, (&candidates[i],)),
    ensures
        is_first_match(
            candidates.deep_view(),
            probe,
            match found {
                Some(index) => Some(index as int),
                None => None,
            },
        ),
{
    let mut index: usize = 0;
    while index < candidates.len()
        invariant
            index <= candidates.len(),
            forall|i: int| 0 <= i < candidates.len() ==> call_requires(probe, (&candidates[i],)),
            forall|j: int|
                0 <= j < index ==> refuses(probe, #[trigger] candidates.deep_view()[j]),
        decreases candidates.len() - index,
    {
        if probe(&candidates[index]) {
            return Some(index);
        }
        index += 1;
    }
    None
}

/// First in order wins: where the probe cannot refuse the first candidate, the
/// search ends with it, whatever else is present.
pub proof fn lemma_first_present_wins<F: Fn(&String) -> bool>(
    candidates: Seq<Seq<char>>,
    probe: F,
    found: Option<int>,
)
    requires
        is_first_match(candidates, probe, found),
        candidates.len() > 0,
        !refuses(probe, candidates[0]),
    ensures
        found == Some(0int),
{
}

/// Where the probe can accept no candidate, nothing is found.
pub proof fn lemma_none_present_none_found<F: Fn(&String) -> bool>(
    candidates: Seq<Seq<char>>,
    probe: F,
    found: Option<int>,
)
    requires
        is_first_match(candidates, probe, found),
        forall|j: int| 0 <= j < candidates.len() ==> !accepts(probe, #[trigger] candidates[j]),
    ensures
        found is None,
{
}

} // verus!

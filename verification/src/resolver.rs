//! First-match resolution of GATT attributes by short UUID.
//!
//! The transport enumerates a peripheral's services (or a service's
//! characteristics) as a list of full UUID strings; an attribute is
//! identified here by its 16-bit assigned number and addressed by its
//! position in that enumeration. Several attributes may share a short UUID;
//! the first in enumeration order wins, an accepted ambiguity of the
//! short-UUID scheme. A UUID string outside the grammar never matches and
//! never raises an error.

use vstd::prelude::*;

use crate::uuid16::spec_short_uuid;

verus! {

/// Index of the first string in `uuids` whose short UUID is `target`,
/// `None` when no string matches.
pub open spec fn spec_first_match(uuids: Seq<String>, target: u16) -> Option<int>
    decreases uuids.len(),
{
    if uuids.len() == 0 {
        None
    } else if spec_short_uuid(uuids[0]@) == Some(target) {
        Some(0)
    } else {
        match spec_first_match(uuids.drop_first(), target) {
            Some(i) => Some(i + 1),
            None => None,
        }
    }
}

/// Resolution returns the first attribute, in enumeration order, whose
/// short UUID equals the target, and nothing when no attribute matches.
pub proof fn lemma_first_match_is_first(uuids: Seq<String>, target: u16)
    ensures
        match spec_first_match(uuids, target) {
            Some(i) => {
                &&& 0 <= i < uuids.len()
                &&& spec_short_uuid(uuids[i]@) == Some(target)
                &&& forall|j: int|
                    0 <= j < i ==> spec_short_uuid(#[trigger] uuids[j]@) != Some(target)
            },
            None => forall|j: int|
                0 <= j < uuids.len() ==> spec_short_uuid(#[trigger] uuids[j]@) != Some(target),
        },
    decreases uuids.len(),
{
    if uuids.len() != 0 && spec_short_uuid(uuids[0]@) != Some(target) {
        lemma_first_match_is_first(uuids.drop_first(), target);
        assert(forall|j: int|
            1 <= j < uuids.len() ==> #[trigger] uuids[j]@ == uuids.drop_first()[j - 1]@);
    }
}

/// Any index that matches and is preceded only by non-matches is the first
/// match.
pub proof fn lemma_first_match_unique(uuids: Seq<String>, target: u16, i: int)
    requires
        0 <= i < uuids.len(),
        spec_short_uuid(uuids[i]@) == Some(target),
        forall|j: int| 0 <= j < i ==> spec_short_uuid(#[trigger] uuids[j]@) != Some(target),
    ensures
        spec_first_match(uuids, target) == Some(i),
    decreases uuids.len(),
{
    if i > 0 {
        assert(forall|j: int|
            1 <= j < uuids.len() ==> #[trigger] uuids[j]@ == uuids.drop_first()[j - 1]@);
        lemma_first_match_unique(uuids.drop_first(), target, i - 1);
    }
}

/// Shared scan: position of the first UUID string whose short UUID is
/// `target`.
fn first_with_short_uuid(uuids: &Vec<String>, target: u16) -> (r: Option<usize>)
    ensures
        r matches Some(i) ==> spec_first_match(uuids@, target) == Some(i as int),
        r is None ==> spec_first_match(uuids@, target) is None,
        r matches Some(i) ==> {
            &&& i < uuids@.len()
            &&& spec_short_uuid(uuids@[i as int]@) == Some(target)
            &&& forall|j: int|
                0 <= j < i ==> spec_short_uuid(#[trigger] uuids@[j]@) != Some(target)
        },
        r is None ==> forall|j: int|
            0 <= j < uuids@.len() ==> spec_short_uuid(#[trigger] uuids@[j]@) != Some(target),
{
    let n = uuids.len();
    let mut k: usize = 0;
    while k < n
        invariant
            n == uuids@.len(),
            k <= n,
            forall|j: int|
                0 <= j < k ==> spec_short_uuid(#[trigger] uuids@[j]@) != Some(target),
        decreases n - k,
    {
        if let Some(v) = crate::uuid16::short_uuid(uuids[k].as_str()) {
            if v == target {
                proof {
                    lemma_first_match_unique(uuids@, target, k as int);
                }
                return Some(k);
            }
        }
        k = k + 1;
    }
    proof {
        lemma_first_match_is_first(uuids@, target);
    }
    None
}

/// Find the first service, in enumeration order, whose short UUID equals
/// `target`; `None` when no service matches.
pub fn find_service(service_uuids: &Vec<String>, target: u16) -> (r: Option<usize>)
    ensures
        r matches Some(i) ==> spec_first_match(service_uuids@, target) == Some(i as int),
        r is None ==> spec_first_match(service_uuids@, target) is None,
{
    first_with_short_uuid(service_uuids, target)
}

/// Find the first characteristic, in enumeration order, whose short UUID
/// equals `target`; `None` when no characteristic matches.
pub fn find_characteristic(characteristic_uuids: &Vec<String>, target: u16) -> (r: Option<usize>)
    ensures
        r matches Some(i) ==> spec_first_match(characteristic_uuids@, target) == Some(i as int),
        r is None ==> spec_first_match(characteristic_uuids@, target) is None,
{
    first_with_short_uuid(characteristic_uuids, target)
}

} // verus!

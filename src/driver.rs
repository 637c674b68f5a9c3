//! Resolving a list of index descriptors against a sequence of integers.
use vstd::prelude::*;

use crate::lookup::{lookup_defined, lookup_spec, GetWithAnyInt, IntValue};

verus! {

/// The value that stands for a lookup that found nothing.
pub const FALLBACK: i32 = -1;

/// A lookup's result, or the fallback where it found nothing.
pub open spec fn or_fallback(r: Option<i32>) -> i32 {
    match r {
        Some(v) => v,
        None => FALLBACK,
    }
}

/// The value that the descriptor `d` resolves to in `seq`.
pub open spec fn resolved(seq: Seq<i32>, d: IntValue) -> i32 {
    or_fallback(lookup_spec(seq, d))
}

/// Whether every descriptor of `ds` may be looked up in `seq`.
pub open spec fn all_defined(seq: Seq<i32>, ds: Seq<IntValue>) -> bool {
    forall|k: int| 0 <= k < ds.len() ==> lookup_defined(seq, #[trigger] ds[k])
}

/// Turns a lookup's result into a value: the element found, or the fallback.
pub fn resolve_or_fallback(r: Option<i32>) -> (v: i32)
    ensures
        v == or_fallback(r),
{
    match r {
        Some(v) => v,
        None => FALLBACK,
    }
}

/// Looks each descriptor up in `seq` and resolves it, keeping the order of
/// the descriptors: one value for each.
pub fn resolve_all(seq: &Vec<i32>, descriptors: &Vec<IntValue>) -> (out: Vec<i32>)
    requires
        all_defined(seq@, descriptors@),
    ensures
        out@.len() == descriptors@.len(),
        forall|k: int| 0 <= k < out@.len() ==> out@[k] == resolved(seq@, #[trigger] descriptors@[k]),
{
    let mut out: Vec<i32> = Vec::new();
    let mut k: usize = 0;
    while k < descriptors.len()
        invariant
            k <= descriptors@.len(),
            all_defined(seq@, descriptors@),
            out@.len() == k,
            forall|j: int| 0 <= j < k ==> out@[j] == resolved(seq@, #[trigger] descriptors@[j]),
        decreases descriptors@.len() - k,
    {
        let d = &descriptors[k];
        let r = seq.getWithAnyInt(d);
        out.push(resolve_or_fallback(r));
        k = k + 1;
    }
    out
}

/// A descriptor whose lookup finds nothing resolves to the fallback `-1`,
/// and to no other value; every signed descriptor is such a one.
pub proof fn lemma_absence_resolves_to_fallback(seq: Seq<i32>, d: IntValue)
    ensures
        lookup_spec(seq, d) is None <==> (d is Signed),
        lookup_spec(seq, d) is None ==> resolved(seq, d) == -1,
{
}

} // verus!

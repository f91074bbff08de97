//! Duration histograms: a map from a duration in cycles to how often it occurred.
use std::collections::BTreeMap;
use vstd::prelude::*;

verus! {

/// The histogram `h` with one more occurrence of duration `d`.
pub open spec fn add_sample(h: Map<u64, u64>, d: u64) -> Map<u64, u64> {
    if h.contains_key(d) {
        h.insert(d, (h[d] + 1) as u64)
    } else {
        h.insert(d, 1)
    }
}

/// Every count in `h` can take one more occurrence without overflow.
pub open spec fn has_room(h: Map<u64, u64>) -> bool {
    forall|d: u64| #[trigger] h.contains_key(d) ==> h[d] < u64::MAX
}

/// Records one occurrence of duration `d` in `h`.
pub fn record_sample(h: &mut BTreeMap<u64, u64>, d: u64)
    requires
        has_room(old(h)@),
    ensures
        final(h)@ == add_sample(old(h)@, d),
{
    broadcast use vstd::laws_cmp::group_laws_cmp;

    let prev: u64 = match h.get(&d) {
        Some(c) => *c,
        None => 0,
    };
    h.insert(d, prev + 1);
}

} // verus!

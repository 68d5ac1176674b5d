use vstd::prelude::*;

verus! {

use std::collections::BTreeMap;

/// A finite set of indices that contains every index below `n` holds at
/// least `n` elements.
proof fn lemma_dense_domain_len(dom: Set<usize>, n: int)
    requires
        dom.finite(),
        0 <= n <= usize::MAX as int + 1,
        forall|x: usize| x < n ==> dom.contains(x),
    ensures
        dom.len() >= n,
    decreases n,
{
    if n > 0 {
        let last = (n - 1) as usize;
        let smaller = dom.remove(last);
        assert(forall|x: usize| x < n - 1 ==> smaller.contains(x));
        lemma_dense_domain_len(smaller, n - 1);
        assert(dom.len() == smaller.len() + 1);
    }
}

/// Return an index that is not currently a key of `map`, searching upward
/// from `hint` (or from zero) and wrapping around past `usize::MAX`.
pub fn get_unused_idx<V>(map: &BTreeMap<usize, V>, hint: Option<usize>) -> (idx: usize)
    requires
        map@.len() < usize::MAX,
    ensures
        !map@.dom().contains(idx),
{
    let start: usize = match hint {
        Some(h) => h,
        None => 0,
    };
    let mut cur: usize = start;
    while cur < usize::MAX && map.contains_key(&cur)
        invariant
            start <= cur <= usize::MAX,
            forall|x: usize| start <= x < cur ==> map@.dom().contains(x),
        decreases usize::MAX - cur,
    {
        cur = cur + 1;
    }
    if !map.contains_key(&cur) {
        return cur;
    }
    // Every index from `start` through `usize::MAX` is taken: wrap to zero.
    let mut low: usize = 0;
    while low < start && map.contains_key(&low)
        invariant
            low <= start,
            forall|x: usize| x < low ==> map@.dom().contains(x),
            forall|x: usize| start <= x ==> map@.dom().contains(x),
        decreases start - low,
    {
        low = low + 1;
    }
    if low < start {
        return low;
    }
    proof {
        // Now every index whatsoever is a key, so the map would hold more
        // than `usize::MAX` entries, contradicting the precondition.
        assert(forall|x: usize| map@.dom().contains(x));
        lemma_dense_domain_len(map@.dom(), usize::MAX as int + 1);
        assert(false);
    }
    0
}

} // verus!

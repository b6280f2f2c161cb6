//! What a loop over a sequence needs to know of the part it has seen when
//! that part grows by one item.

use vstd::prelude::*;

verus! {

/// The prefix that is one item longer holds what the shorter one holds, and
/// the new item.
pub proof fn lemma_prefix_contains<T>(items: Seq<T>, i: int, x: T)
    requires
        0 <= i < items.len(),
    ensures
        items.take(i + 1).contains(x) <==> (items.take(i).contains(x) || x == items[i]),
{
    let shorter = items.take(i);
    let longer = items.take(i + 1);
    if shorter.contains(x) {
        let j = choose|j: int| 0 <= j < shorter.len() && shorter[j] == x;
        assert(longer[j] == x);
    }
    if x == items[i] {
        assert(longer[i] == x);
    }
    if longer.contains(x) {
        let j = choose|j: int| 0 <= j < longer.len() && longer[j] == x;
        if j < i {
            assert(shorter[j] == x);
        }
    }
}

/// Some item of the prefix that is one item longer satisfies `pred` exactly
/// where some item of the shorter one does, or the new item.
pub proof fn lemma_prefix_any<T>(items: Seq<T>, i: int, pred: spec_fn(T) -> bool)
    requires
        0 <= i < items.len(),
    ensures
        items.take(i + 1).any(pred) <==> (items.take(i).any(pred) || pred(items[i])),
{
    let shorter = items.take(i);
    let longer = items.take(i + 1);
    if shorter.any(pred) {
        let j = choose|j: int| 0 <= j < shorter.len() && #[trigger] pred(shorter[j]);
        assert(longer[j] == shorter[j]);
    }
    if pred(items[i]) {
        assert(longer[i] == items[i]);
    }
    if longer.any(pred) {
        let j = choose|j: int| 0 <= j < longer.len() && #[trigger] pred(longer[j]);
        if j < i {
            assert(shorter[j] == longer[j]);
        }
    }
}

} // verus!

//! The first finding in an ordered list of findings.
//!
//! Validation is fail-fast: the checks run in a fixed order and the first
//! one that finds something wrong decides the result. This module gives that
//! notion one definition, which every rule of the validator is stated with.

use vstd::prelude::*;

verus! {

/// The first entry of `items` that holds a finding, or `None` when no entry
/// holds one.
pub open spec fn first_some<E>(items: Seq<Option<E>>) -> Option<E>
    decreases items.len(),
{
    if items.len() == 0 {
        None
    } else if items[0] is Some {
        items[0]
    } else {
        first_some(items.drop_first())
    }
}

/// When entry `k` holds a finding and no entry before it does, the first
/// finding is that of entry `k`.
pub proof fn lemma_first_some_at<E>(items: Seq<Option<E>>, k: int)
    requires
        0 <= k < items.len(),
        items[k] is Some,
        forall|j: int| 0 <= j < k ==> items[j] is None,
    ensures
        first_some(items) == items[k],
    decreases items.len(),
{
    if k > 0 {
        let rest = items.drop_first();
        assert(rest[k - 1] == items[k]);
        assert forall|j: int| 0 <= j < k - 1 implies rest[j] is None by {
            assert(rest[j] == items[j + 1]);
        }
        lemma_first_some_at(rest, k - 1);
    }
}

/// There is no first finding exactly when no entry holds one.
pub proof fn lemma_first_some_none<E>(items: Seq<Option<E>>)
    ensures
        first_some(items) is None <==> forall|j: int| 0 <= j < items.len() ==> items[j] is None,
    decreases items.len(),
{
    if items.len() > 0 {
        let rest = items.drop_first();
        lemma_first_some_none(rest);
        if first_some(items) is None {
            assert forall|j: int| 0 <= j < items.len() implies items[j] is None by {
                if j > 0 {
                    assert(rest[j - 1] == items[j]);
                }
            }
        }
        if forall|j: int| 0 <= j < items.len() ==> items[j] is None {
            assert forall|j: int| 0 <= j < rest.len() implies rest[j] is None by {
                assert(rest[j] == items[j + 1]);
            }
        }
    }
}

/// A first finding is the finding of some entry, and no entry before that
/// one holds a finding.
pub proof fn lemma_first_some_is_least<E>(items: Seq<Option<E>>) -> (k: int)
    requires
        first_some(items) is Some,
    ensures
        0 <= k < items.len(),
        items[k] == first_some(items),
        forall|j: int| 0 <= j < k ==> items[j] is None,
    decreases items.len(),
{
    if items[0] is Some {
        0
    } else {
        let rest = items.drop_first();
        let k = lemma_first_some_is_least(rest);
        assert(rest[k] == items[k + 1]);
        assert forall|j: int| 0 <= j < k + 1 implies items[j] is None by {
            if j > 0 {
                assert(rest[j - 1] == items[j]);
            }
        }
        k + 1
    }
}

} // verus!

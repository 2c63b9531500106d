//! The filter chain: an ordered list of transformers, each of which hands an
//! item on, possibly changed, or drops it.

use vstd::prelude::*;

verus! {

/// Whether the first `upto` filters accepted in turn: filter `i` took
/// `trace[i]` and handed on `trace[i + 1]`.
pub open spec fn accepted_through<T, F: Fn(&T) -> Result<Option<T>, String>>(
    filters: Seq<F>,
    trace: Seq<T>,
    upto: int,
) -> bool {
    forall|i: int|
        0 <= i < upto ==> call_ensures(#[trigger] filters[i], (&trace[i],), Ok(Some(trace[i + 1])))
}

/// Whether every filter accepted `item` in chain order and `out` is what the
/// last one handed on.
pub open spec fn chain_keeps<T, F: Fn(&T) -> Result<Option<T>, String>>(
    filters: Seq<F>,
    item: T,
    out: T,
) -> bool {
    exists|trace: Seq<T>|
        {
            &&& trace.len() == filters.len() + 1
            &&& trace[0] == item
            &&& trace[filters.len() as int] == out
            &&& #[trigger] accepted_through(filters, trace, filters.len() as int)
        }
}

/// Whether the chain ended early on `item`: the filters before some filter
/// `k` accepted in turn, and filter `k` answered `answer`. Nothing is asked
/// of the filters behind `k`: they are not run.
pub open spec fn chain_stops<T, F: Fn(&T) -> Result<Option<T>, String>>(
    filters: Seq<F>,
    item: T,
    answer: Result<Option<T>, String>,
) -> bool {
    exists|trace: Seq<T>, k: int|
        {
            &&& 0 <= k < filters.len()
            &&& trace.len() == k + 1
            &&& trace[0] == item
            &&& #[trigger] accepted_through(filters, trace, k)
            &&& call_ensures(filters[k], (&trace[k],), answer)
        }
}

/// What the chain may make of one item: the item as the last filter handed
/// it on, a drop by the first filter that drops, or the failure of the first
/// filter that fails.
pub open spec fn chain_outcome<T, F: Fn(&T) -> Result<Option<T>, String>>(
    filters: Seq<F>,
    item: T,
    outcome: Result<Option<T>, String>,
) -> bool {
    match outcome {
        Ok(Some(out)) => chain_keeps(filters, item, out),
        Ok(None) => chain_stops(filters, item, Ok(None)),
        Err(e) => chain_stops(filters, item, Err(e)),
    }
}

/// Whether every filter can be called on every item.
pub open spec fn filters_callable<T, F: Fn(&T) -> Result<Option<T>, String>>(
    filters: Seq<F>,
) -> bool {
    forall|i: int, x: T| 0 <= i < filters.len() ==> #[trigger] call_requires(filters[i], (&x,))
}

/// Threads one item through the chain, in order. The first filter that drops
/// the item or fails ends the chain for it.
pub fn run_chain<T, F: Fn(&T) -> Result<Option<T>, String>>(item: T, filters: &Vec<F>) -> (r:
    Result<Option<T>, String>)
    requires
        filters_callable(filters@),
    ensures
        chain_outcome(filters@, item, r),
{
    let ghost mut trace: Seq<T> = seq![item];
    let mut current = item;
    let mut i: usize = 0;
    while i < filters.len()
        invariant
            i <= filters.len(),
            filters_callable(filters@),
            trace.len() == i + 1,
            trace[0] == item,
            trace[i as int] == current,
            accepted_through(filters@, trace, i as int),
        decreases filters.len() - i,
    {
        let answer = (filters[i])(&current);
        match answer {
            Ok(Some(next)) => {
                proof {
                    let longer = trace.push(next);
                    assert forall|k: int| 0 <= k < i + 1 implies call_ensures(
                        #[trigger] filters@[k],
                        (&longer[k],),
                        Ok(Some(longer[k + 1])),
                    ) by {
                        if k < i {
                            assert(longer[k] == trace[k]);
                            assert(longer[k + 1] == trace[k + 1]);
                        }
                    }
                    trace = longer;
                }
                current = next;
            },
            Ok(None) => {
                assert(chain_stops(filters@, item, Ok(None))) by {
                    assert(accepted_through(filters@, trace, i as int));
                }
                return Ok(None);
            },
            Err(e) => {
                assert(chain_stops(filters@, item, Err(e))) by {
                    assert(accepted_through(filters@, trace, i as int));
                }
                return Err(e);
            },
        }
        i += 1;
    }
    assert(chain_keeps(filters@, item, current)) by {
        assert(accepted_through(filters@, trace, filters@.len() as int));
    }
    Ok(Some(current))
}

/// The items that were kept, in order.
pub open spec fn retained<T>(outcomes: Seq<Option<T>>) -> Seq<T>
    decreases outcomes.len(),
{
    if outcomes.len() == 0 {
        Seq::empty()
    } else {
        match outcomes.last() {
            Some(item) => retained(outcomes.drop_last()).push(item),
            None => retained(outcomes.drop_last()),
        }
    }
}

/// Whether `outcomes` holds, for each of `items` in turn, what the chain made
/// of it: the item that was handed on, or nothing where it was dropped.
pub open spec fn timeline_outcomes<T, F: Fn(&T) -> Result<Option<T>, String>>(
    filters: Seq<F>,
    items: Seq<T>,
    outcomes: Seq<Option<T>>,
) -> bool {
    &&& outcomes.len() == items.len()
    &&& forall|k: int|
        0 <= k < items.len() ==> chain_outcome(filters, #[trigger] items[k], Ok(outcomes[k]))
}

/// Whether a run over `items` ends with the failure `message`: the chain
/// failed with it on some item, and had not failed on any item before that
/// one.
pub open spec fn timeline_fails<T, F: Fn(&T) -> Result<Option<T>, String>>(
    filters: Seq<F>,
    items: Seq<T>,
    message: String,
) -> bool {
    exists|k: int, outcomes: Seq<Option<T>>|
        {
            &&& 0 <= k < items.len()
            &&& #[trigger] timeline_outcomes(filters, items.take(k), outcomes)
            &&& chain_stops(filters, items[k], Err(message))
        }
}

/// Threads every item of a timeline through the chain. An item is in the
/// result exactly where no filter dropped it, as the last filter handed it
/// on, and the kept items are in the timeline's order. The first failure of
/// a filter ends the run with its message.
pub fn apply_filters<T, F: Fn(&T) -> Result<Option<T>, String>>(
    items: Vec<T>,
    filters: &Vec<F>,
) -> (r: Result<Vec<T>, String>)
    requires
        filters_callable(filters@),
    ensures
        match r {
            Ok(kept) => exists|outcomes: Seq<Option<T>>|
                #[trigger] timeline_outcomes(filters@, items@, outcomes) && kept@ == retained(
                    outcomes,
                ),
            Err(e) => timeline_fails(filters@, items@, e),
        },
{
    let ghost mut outcomes: Seq<Option<T>> = Seq::empty();
    let mut kept: Vec<T> = Vec::new();
    for item in it: items
        invariant
            filters_callable(filters@),
            it.seq() == items@,
            outcomes.len() == it.index(),
            forall|k: int|
                0 <= k < it.index() ==> chain_outcome(filters@, #[trigger] items@[k], Ok(outcomes[k])),
            kept@ == retained(outcomes),
    {
        let ghost k = it.index() as int;
        assert(item == items@[k]);
        match run_chain(item, filters) {
            Ok(Some(out)) => {
                proof {
                    let longer = outcomes.push(Some(out));
                    assert(longer.drop_last() =~= outcomes);
                    outcomes = longer;
                }
                kept.push(out);
            },
            Ok(None) => {
                proof {
                    let longer = outcomes.push(None);
                    assert(longer.drop_last() =~= outcomes);
                    outcomes = longer;
                }
            },
            Err(e) => {
                assert(timeline_fails(filters@, items@, e)) by {
                    assert(timeline_outcomes(filters@, items@.take(k), outcomes));
                }
                return Err(e);
            },
        }
    }
    assert(timeline_outcomes(filters@, items@, outcomes));
    Ok(kept)
}

/// Whether the retained items at `a` and `b` were kept by two outcomes that
/// stand in the same order.
pub open spec fn kept_in_order<T>(outcomes: Seq<Option<T>>, a: int, b: int) -> bool {
    exists|i: int, j: int|
        0 <= i < j < outcomes.len() && #[trigger] outcomes[i] == Some(retained(outcomes)[a])
            && #[trigger] outcomes[j] == Some(retained(outcomes)[b])
}

/// An item is among the retained ones exactly where some outcome kept it,
/// and the retained items stand in the order of their outcomes.
pub proof fn lemma_retained<T>(outcomes: Seq<Option<T>>)
    ensures
        retained(outcomes).len() <= outcomes.len(),
        forall|item: T|
            retained(outcomes).contains(item) <==> exists|k: int|
                0 <= k < outcomes.len() && #[trigger] outcomes[k] == Some(item),
        forall|a: int, b: int|
            0 <= a < b < retained(outcomes).len() ==> #[trigger] kept_in_order(outcomes, a, b),
    decreases outcomes.len(),
{
    if outcomes.len() == 0 {
    } else {
        let before = outcomes.drop_last();
        let n = before.len() as int;
        lemma_retained(before);
        let kept = retained(outcomes);
        let kept_before = retained(before);
        assert forall|item: T| kept.contains(item) <==> exists|k: int|
            0 <= k < outcomes.len() && #[trigger] outcomes[k] == Some(item) by {
            if kept.contains(item) {
                let p = choose|p: int| 0 <= p < kept.len() && kept[p] == item;
                if p < kept_before.len() {
                    assert(kept_before[p] == item);
                    assert(kept_before.contains(item));
                    let k = choose|k: int| 0 <= k < before.len() && #[trigger] before[k] == Some(item);
                    assert(outcomes[k] == Some(item));
                } else {
                    assert(outcomes[n] == Some(item));
                }
            }
            if exists|k: int| 0 <= k < outcomes.len() && #[trigger] outcomes[k] == Some(item) {
                let k = choose|k: int| 0 <= k < outcomes.len() && #[trigger] outcomes[k] == Some(item);
                if k < n {
                    assert(before[k] == Some(item));
                    assert(kept_before.contains(item));
                    let p = choose|p: int| 0 <= p < kept_before.len() && kept_before[p] == item;
                    assert(kept[p] == item);
                } else {
                    assert(kept[kept.len() - 1] == item);
                }
            }
        }
        assert forall|a: int, b: int| 0 <= a < b < kept.len() implies #[trigger] kept_in_order(
            outcomes,
            a,
            b,
        ) by {
            if b < kept_before.len() {
                assert(kept_before[a] == kept[a]);
                assert(kept_before[b] == kept[b]);
                assert(kept_in_order(before, a, b));
                let (i, j) = choose|i: int, j: int|
                    0 <= i < j < before.len() && #[trigger] before[i] == Some(kept_before[a])
                        && #[trigger] before[j] == Some(kept_before[b]);
                assert(outcomes[i] == before[i]);
                assert(outcomes[j] == before[j]);
            } else {
                assert(kept_before[a] == kept[a]);
                assert(kept_before.contains(kept[a]));
                let i = choose|i: int| 0 <= i < before.len() && #[trigger] before[i] == Some(kept[a]);
                assert(outcomes[i] == before[i]);
                assert(outcomes[n] == Some(kept[b]));
            }
        }
    }
}

/// An item of a timeline is in the output exactly where every filter, in
/// chain order, accepted it: each kept item is what the chain handed on for
/// some item of the timeline, each item that the chain handed on is kept,
/// and an item that some filter dropped stands for nothing in the output.
pub proof fn lemma_kept_iff_accepted<T, F: Fn(&T) -> Result<Option<T>, String>>(
    filters: Seq<F>,
    items: Seq<T>,
    outcomes: Seq<Option<T>>,
)
    requires
        timeline_outcomes(filters, items, outcomes),
    ensures
        forall|out: T|
            retained(outcomes).contains(out) <==> exists|k: int|
                0 <= k < items.len() && #[trigger] outcomes[k] == Some(out),
        forall|k: int|
            0 <= k < items.len() ==> match #[trigger] outcomes[k] {
                Some(out) => chain_keeps(filters, items[k], out) && retained(outcomes).contains(out),
                None => chain_stops(filters, items[k], Ok(None)),
            },
{
    lemma_retained(outcomes);
    assert forall|k: int| 0 <= k < items.len() implies match #[trigger] outcomes[k] {
        Some(out) => chain_keeps(filters, items[k], out) && retained(outcomes).contains(out),
        None => chain_stops(filters, items[k], Ok(None)),
    } by {
        assert(chain_outcome(filters, items[k], Ok(outcomes[k])));
    }
}

} // verus!

//! Two passes over vectors.
use vstd::prelude::*;

verus! {

/// The items whose flag is not set, in order.
pub open spec fn unflagged<T>(items: Seq<T>, flags: Seq<bool>) -> Seq<T>
    decreases items.len(),
{
    if items.len() == 0 {
        Seq::empty()
    } else {
        let kept = unflagged(items.drop_last(), flags);
        if flags[items.len() - 1] {
            kept
        } else {
            kept.push(items.last())
        }
    }
}

/// Keeps the items whose flag is not set.
pub fn keep_unflagged<T>(items: Vec<T>, flags: &Vec<bool>) -> (kept: Vec<T>)
    requires
        items@.len() == flags@.len(),
    ensures
        kept@ == unflagged(items@, flags@),
{
    let ghost all = items@;
    let mut kept: Vec<T> = Vec::new();
    let count: usize = flags.len();
    let mut i: usize = 0;
    for item in it: items.into_iter()
        invariant
            it.seq() == all,
            i == it.index(),
            all.len() == flags@.len() == count,
            kept@ == unflagged(all.take(i as int), flags@),
    {
        assert(all.take(i + 1).drop_last() =~= all.take(i as int));
        if !flags[i] {
            kept.push(item);
        }
        i = i + 1;
    }
    assert(all.take(all.len() as int) =~= all);
    kept
}

/// The values of results that are all successes.
pub open spec fn values<T, E>(results: Seq<Result<T, E>>) -> Seq<T> {
    results.map_values(|result: Result<T, E>| result->Ok_0)
}

/// Whether results amount to one result: their values in order if all of them are
/// successes, and the first error otherwise.
pub open spec fn collected<T, E>(results: Seq<Result<T, E>>, res: Result<Vec<T>, E>) -> bool {
    match res {
        Ok(all) => {
            &&& forall|i: int| 0 <= i < results.len() ==> #[trigger] results[i] is Ok
            &&& all@ == values(results)
        },
        Err(error) => exists|i: int|
            {
                &&& 0 <= i < results.len()
                &&& #[trigger] results[i] == Err::<T, E>(error)
                &&& forall|j: int| 0 <= j < i ==> #[trigger] results[j] is Ok
            },
    }
}

/// Turns results into one result.
pub fn collect_results<T, E>(results: Vec<Result<T, E>>) -> (res: Result<Vec<T>, E>)
    ensures
        collected(results@, res),
{
    let ghost all = results@;
    let mut collection: Vec<T> = Vec::new();
    for result in it: results.into_iter()
        invariant
            it.seq() == all,
            forall|j: int| 0 <= j < it.index() ==> #[trigger] all[j] is Ok,
            collection@ == values(all.take(it.index() as int)),
    {
        let ghost i = it.index() as int;
        match result {
            Ok(value) => {
                assert(all[i] == Ok::<T, E>(value));
                collection.push(value);
                assert(collection@ =~= values(all.take(i + 1)));
            },
            Err(error) => {
                assert(all[i] == Err::<T, E>(error));
                return Err(error);
            },
        }
    }
    assert(all.take(all.len() as int) =~= all);
    Ok(collection)
}

/// How many of the first flags are not set.
pub open spec fn unset_before(flags: Seq<bool>, i: int) -> nat
    decreases i,
{
    if i <= 0 {
        0
    } else {
        unset_before(flags, i - 1) + (if flags[i - 1] {
            0nat
        } else {
            1
        })
    }
}

/// An item whose flag is not set is kept, behind as many others as there are flags
/// before it that are not set. Nothing else is kept. So items stay in order, and
/// two sequences that are filtered by the same flags stay side by side.
pub proof fn law_unflagged_items_keep_their_order<T>(items: Seq<T>, flags: Seq<bool>)
    requires
        items.len() <= flags.len(),
    ensures
        unflagged(items, flags).len() == unset_before(flags, items.len() as int),
        forall|i: int|
            0 <= i < items.len() && !flags[i] ==> #[trigger] unset_before(flags, i) < unflagged(
                items,
                flags,
            ).len() && unflagged(items, flags)[unset_before(flags, i) as int] == items[i],
        forall|item: T|
            #[trigger] unflagged(items, flags).contains(item) ==> exists|i: int|
                0 <= i < items.len() && !flags[i] && #[trigger] items[i] == item,
    decreases items.len(),
{
    if items.len() > 0 {
        let earlier = items.drop_last();
        let last = items.len() - 1;
        law_unflagged_items_keep_their_order(earlier, flags);
        assert forall|i: int| 0 <= i < items.len() && !flags[i] implies #[trigger] unset_before(
            flags,
            i,
        ) < unflagged(items, flags).len() && unflagged(items, flags)[unset_before(flags, i) as int]
            == items[i] by {
            if i < last {
                assert(earlier[i] == items[i]);
            }
        }
        assert forall|item: T| #[trigger] unflagged(items, flags).contains(item) implies exists|
            i: int,
        |
            0 <= i < items.len() && !flags[i] && #[trigger] items[i] == item by {
            let kept = unflagged(earlier, flags);
            if kept.contains(item) {
                let i = choose|i: int|
                    0 <= i < earlier.len() && !flags[i] && #[trigger] earlier[i] == item;
                assert(items[i] == item);
            } else {
                let all = unflagged(items, flags);
                let k = choose|k: int| 0 <= k < all.len() && all[k] == item;
                assert(k == kept.len() || kept[k] == item);
                assert(items[last] == item);
            }
        }
    }
}

/// Results amount to a success exactly if all of them are, with the value of each in
/// its place, and otherwise to the error that comes first.
pub proof fn law_collected_results<T, E>(results: Seq<Result<T, E>>, res: Result<Vec<T>, E>)
    requires
        collected(results, res),
    ensures
        res is Ok <==> forall|i: int| 0 <= i < results.len() ==> #[trigger] results[i] is Ok,
        res matches Ok(all) ==> {
            &&& all@.len() == results.len()
            &&& forall|i: int|
                0 <= i < results.len() ==> #[trigger] results[i] == Ok::<T, E>(all@[i])
        },
        forall|i: int|
            0 <= i < results.len() && (forall|j: int| 0 <= j < i ==> #[trigger] results[j] is Ok)
                ==> (#[trigger] results[i] matches Err(error) ==> res == Err::<Vec<T>, E>(error)),
{
    if let Ok(all) = res {
        assert forall|i: int| 0 <= i < results.len() implies #[trigger] results[i] == Ok::<T, E>(
            all@[i],
        ) by {
            assert(results[i] is Ok);
        }
    } else {
        let first = choose|i: int|
            {
                &&& 0 <= i < results.len()
                &&& #[trigger] results[i] == Err::<T, E>(res->Err_0)
                &&& forall|j: int| 0 <= j < i ==> #[trigger] results[j] is Ok
            };
        assert(!(results[first] is Ok));
        assert forall|i: int|
            0 <= i < results.len() && (forall|j: int| 0 <= j < i ==> #[trigger] results[j] is Ok)
                && (#[trigger] results[i] is Err) implies results[i] == Err::<T, E>(res->Err_0) by {
            if i < first {
                assert(results[i] is Ok);
            } else if first < i {
                assert(results[first] is Ok);
            }
        }
    }
}

} // verus!

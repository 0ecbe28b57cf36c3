//! Putting values in the order of a time.
use crate::model::Timestamp;
use vstd::prelude::*;

verus! {

/// A list in the order of time with one more value: behind all that are not later.
pub open spec fn placed<T>(list: Seq<(Timestamp, T)>, item: (Timestamp, T)) -> Seq<(Timestamp, T)>
    decreases list.len(),
{
    if list.len() == 0 || list.last().0 <= item.0 {
        list.push(item)
    } else {
        placed(list.drop_last(), item).push(list.last())
    }
}

/// The values in the order of their time; those of one time stay as they came.
pub open spec fn in_order<T>(items: Seq<(Timestamp, T)>) -> Seq<(Timestamp, T)>
    decreases items.len(),
{
    if items.len() == 0 {
        Seq::empty()
    } else {
        placed(in_order(items.drop_last()), items.last())
    }
}

/// No value stands behind a later one.
pub open spec fn is_ordered<T>(list: Seq<(Timestamp, T)>) -> bool {
    forall|i: int, j: int|
        0 <= i < j < list.len() ==> (#[trigger] list[i]).0 <= (#[trigger] list[j]).0
}

/// The values of one time, in their order.
pub open spec fn at_time<T>(list: Seq<(Timestamp, T)>, time: Timestamp) -> Seq<(Timestamp, T)> {
    list.filter(|item: (Timestamp, T)| item.0 == time)
}

/// The values that are there, in their order.
pub open spec fn present<T>(items: Seq<Option<T>>) -> Seq<T>
    decreases items.len(),
{
    if items.len() == 0 {
        Seq::empty()
    } else {
        match items.last() {
            None => present(items.drop_last()),
            Some(value) => present(items.drop_last()).push(value),
        }
    }
}

proof fn lemma_placed_at<T>(list: Seq<(Timestamp, T)>, item: (Timestamp, T), p: int)
    requires
        0 <= p <= list.len(),
        p > 0 ==> list[p - 1].0 <= item.0,
        forall|i: int| p <= i < list.len() ==> (#[trigger] list[i]).0 > item.0,
    ensures
        placed(list, item) == list.insert(p, item),
    decreases list.len(),
{
    if p == list.len() {
        assert(list.insert(p, item) =~= list.push(item));
    } else {
        let front = list.drop_last();
        assert(list.last() == list[list.len() - 1]);
        assert forall|i: int| p <= i < front.len() implies (#[trigger] front[i]).0 > item.0 by {
            assert(front[i] == list[i]);
        }
        lemma_placed_at(front, item, p);
        assert(list.insert(p, item) =~= front.insert(p, item).push(list.last()));
    }
}

proof fn lemma_at_time_of_push<T>(
    list: Seq<(Timestamp, T)>,
    item: (Timestamp, T),
    time: Timestamp,
)
    ensures
        at_time(list.push(item), time) == if item.0 == time {
            at_time(list, time).push(item)
        } else {
            at_time(list, time)
        },
{
    reveal(Seq::filter);
    assert(list.push(item).drop_last() =~= list);
}

proof fn lemma_placed<T>(list: Seq<(Timestamp, T)>, item: (Timestamp, T), time: Timestamp)
    requires
        is_ordered(list),
    ensures
        is_ordered(placed(list, item)),
        placed(list, item).len() == list.len() + 1,
        at_time(placed(list, item), time) == at_time(list.push(item), time),
        forall|i: int|
            0 <= i < list.len() + 1 ==> (#[trigger] placed(list, item)[i]).0 <= item.0
                || list.len() > 0 && placed(list, item)[i].0 <= list.last().0,
    decreases list.len(),
{
    if list.len() > 0 && list.last().0 > item.0 {
        let front = list.drop_last();
        assert(is_ordered(front)) by {
            assert forall|i: int, j: int| 0 <= i < j < front.len() implies (#[trigger] front[i]).0
                <= (#[trigger] front[j]).0 by {
                assert(list[i].0 <= list[j].0);
            }
        }
        if front.len() > 0 {
            assert(list[front.len() - 1].0 <= list[list.len() - 1].0);
        }
        lemma_placed(front, item, time);
        lemma_at_time_of_push(placed(front, item), list.last(), time);
        lemma_at_time_of_push(front, item, time);
        lemma_at_time_of_push(front, list.last(), time);
        lemma_at_time_of_push(list, item, time);
        assert(front.push(list.last()) =~= list);
    } else {
        assert forall|i: int, j: int| 0 <= i < j < list.push(item).len() implies (
        #[trigger] list.push(item)[i]).0 <= (#[trigger] list.push(item)[j]).0 by {
            if j == list.len() && i < list.len() - 1 {
                assert(list[i].0 <= list[list.len() - 1].0);
            }
        }
        assert forall|i: int| 0 <= i < list.len() + 1 implies (#[trigger] list.push(item)[i]).0
            <= item.0 by {
            if i < list.len() - 1 {
                assert(list[i].0 <= list[list.len() - 1].0);
            }
        }
    }
}

/// Putting values in order leaves none behind a later one, and keeps the values of
/// each time as they came.
pub proof fn law_order_is_by_time<T>(items: Seq<(Timestamp, T)>, time: Timestamp)
    ensures
        is_ordered(in_order(items)),
        in_order(items).len() == items.len(),
        at_time(in_order(items), time) == at_time(items, time),
    decreases items.len(),
{
    if items.len() > 0 {
        let front = items.drop_last();
        law_order_is_by_time(front, time);
        lemma_placed(in_order(front), items.last(), time);
        lemma_at_time_of_push(in_order(front), items.last(), time);
        lemma_at_time_of_push(front, items.last(), time);
        assert(front.push(items.last()) =~= items);
    }
}

proof fn lemma_placed_keeps_the_values<T>(list: Seq<(Timestamp, T)>, item: (Timestamp, T))
    ensures
        placed(list, item).to_multiset() =~= list.to_multiset().insert(item),
    decreases list.len(),
{
    broadcast use vstd::seq_lib::group_to_multiset_ensures;

    if list.len() > 0 && list.last().0 > item.0 {
        lemma_placed_keeps_the_values(list.drop_last(), item);
        assert(list.drop_last().push(list.last()) =~= list);
    }
}

/// Putting values in order neither loses nor adds nor doubles any.
pub proof fn law_order_keeps_the_values<T>(items: Seq<(Timestamp, T)>, item: (Timestamp, T))
    ensures
        in_order(items).to_multiset() =~= items.to_multiset(),
        in_order(items).contains(item) <==> items.contains(item),
    decreases items.len(),
{
    broadcast use vstd::seq_lib::group_to_multiset_ensures;

    if items.len() > 0 {
        law_order_keeps_the_values(items.drop_last(), item);
        lemma_placed_keeps_the_values(in_order(items.drop_last()), items.last());
        assert(items.drop_last().push(items.last()) =~= items);
    } else {
        assert(in_order(items) =~= items);
    }
    assert(in_order(items).contains(item) <==> in_order(items).to_multiset().count(item) > 0);
    assert(items.contains(item) <==> items.to_multiset().count(item) > 0);
}

/// The values that are there are exactly those of the items that hold one.
pub proof fn law_present_values<T>(items: Seq<Option<T>>, value: T)
    ensures
        present(items).contains(value) <==> items.contains(Some(value)),
        present(items).len() <= items.len(),
    decreases items.len(),
{
    if items.len() > 0 {
        let front = items.drop_last();
        law_present_values(front, value);
        assert(front.push(items.last()) =~= items);
        assert(items.contains(Some(value)) <==> front.contains(Some(value)) || items.last()
            == Some(value)) by {
            if front.contains(Some(value)) {
                let i = choose|i: int| 0 <= i < front.len() && front[i] == Some(value);
                assert(items[i] == Some(value));
            }
            if items.contains(Some(value)) {
                let i = choose|i: int| 0 <= i < items.len() && items[i] == Some(value);
                if i < front.len() {
                    assert(front[i] == Some(value));
                }
            }
            if items.last() == Some(value) {
                assert(items[items.len() - 1] == Some(value));
            }
        }
        if let Some(last) = items.last() {
            let before = present(front);
            let list = present(items);
            if before.contains(value) {
                let k = choose|k: int| 0 <= k < before.len() && before[k] == value;
                assert(list[k] == value);
            }
            if list.contains(value) {
                let k = choose|k: int| 0 <= k < list.len() && list[k] == value;
                if k < before.len() {
                    assert(before[k] == value);
                }
            }
            if last == value {
                assert(list[list.len() - 1] == value);
            }
        }
    }
}

/// The values themselves in the order of their time.
pub open spec fn by_time<T>(items: Seq<(Timestamp, T)>) -> Seq<T> {
    in_order(items).map_values(|item: (Timestamp, T)| item.1)
}

/// The values in the order of their time are the same values, and none stands before
/// one of an earlier time.
pub proof fn law_values_by_time<T>(items: Seq<(Timestamp, T)>)
    ensures
        by_time(items).len() == items.len(),
        forall|i: int|
            0 <= i < items.len() ==> by_time(items).contains((#[trigger] items[i]).1),
        forall|k: int|
            0 <= k < by_time(items).len() ==> items.contains(#[trigger] in_order(items)[k])
                && by_time(items)[k] == in_order(items)[k].1,
        forall|j: int, k: int|
            0 <= j < k < items.len() ==> (#[trigger] in_order(items)[j]).0 <= (
            #[trigger] in_order(items)[k]).0,
{
    law_order_is_by_time(items, 0);
    assert forall|i: int| 0 <= i < items.len() implies by_time(items).contains(
        (#[trigger] items[i]).1,
    ) by {
        law_order_keeps_the_values(items, items[i]);
        let k = choose|k: int|
            0 <= k < in_order(items).len() && in_order(items)[k] == items[i];
        assert(by_time(items)[k] == items[i].1);
    }
    assert forall|k: int| 0 <= k < by_time(items).len() implies items.contains(
        #[trigger] in_order(items)[k],
    ) && by_time(items)[k] == in_order(items)[k].1 by {
        law_order_keeps_the_values(items, in_order(items)[k]);
    }
}

/// Rows in the order of a time that each holds are the same rows, and none stands
/// before one of an earlier time.
pub proof fn law_rows_by_time<T>(rows: Seq<T>, timed: spec_fn(T) -> (Timestamp, T))
    requires
        forall|row: T| (#[trigger] timed(row)).1 == row,
    ensures
        by_time(rows.map_values(timed)).len() == rows.len(),
        forall|i: int|
            0 <= i < rows.len() ==> by_time(rows.map_values(timed)).contains(#[trigger] rows[i]),
        forall|k: int|
            0 <= k < rows.len() ==> rows.contains(#[trigger] by_time(rows.map_values(timed))[k]),
        forall|j: int, k: int|
            0 <= j < k < rows.len() ==> timed(#[trigger] by_time(rows.map_values(timed))[j]).0
                <= timed(#[trigger] by_time(rows.map_values(timed))[k]).0,
{
    let items = rows.map_values(timed);
    law_values_by_time(items);
    assert forall|i: int| 0 <= i < rows.len() implies by_time(items).contains(
        #[trigger] rows[i],
    ) by {
        assert(items[i].1 == rows[i]);
    }
    assert forall|k: int| 0 <= k < rows.len() implies rows.contains(#[trigger] by_time(items)[k])
        && in_order(items)[k] == timed(by_time(items)[k]) by {
        let i = choose|i: int| 0 <= i < items.len() && items[i] == in_order(items)[k];
        assert(items[i] == timed(rows[i]));
        assert(rows[i] == by_time(items)[k]);
    }
    assert forall|j: int, k: int| 0 <= j < k < rows.len() implies timed(
        #[trigger] by_time(items)[j],
    ).0 <= timed(#[trigger] by_time(items)[k]).0 by {
        assert(in_order(items)[j].0 <= in_order(items)[k].0);
    }
}

/// Leaving rows out leaves the others in their order.
pub proof fn law_filter_keeps_the_order<T>(
    rows: Seq<T>,
    timed: spec_fn(T) -> (Timestamp, T),
    wanted: spec_fn(T) -> bool,
)
    requires
        forall|j: int, k: int|
            0 <= j < k < rows.len() ==> timed(#[trigger] rows[j]).0 <= timed(#[trigger] rows[k]).0,
    ensures
        forall|j: int, k: int|
            0 <= j < k < rows.filter(wanted).len() ==> timed(#[trigger] rows.filter(wanted)[j]).0
                <= timed(#[trigger] rows.filter(wanted)[k]).0,
    decreases rows.len(),
{
    reveal(Seq::filter);
    if rows.len() > 0 {
        let front = rows.drop_last();
        assert forall|j: int, k: int| 0 <= j < k < front.len() implies timed(#[trigger] front[j]).0
            <= timed(#[trigger] front[k]).0 by {
            assert(front[j] == rows[j] && front[k] == rows[k]);
        }
        law_filter_keeps_the_order(front, timed, wanted);
        let kept = rows.filter(wanted);
        assert forall|j: int, k: int| 0 <= j < k < kept.len() implies timed(#[trigger] kept[j]).0
            <= timed(#[trigger] kept[k]).0 by {
            let before = front.filter(wanted);
            assert(kept[j] == before[j]);
            if k < before.len() {
                assert(kept[k] == before[k]);
            } else {
                assert(before.contains(before[j]));
                front.lemma_filter_contains_rev(wanted, before[j]);
                let i = choose|i: int| 0 <= i < front.len() && front[i] == before[j];
                assert(rows[i] == kept[j]);
                assert(kept[k] == rows[rows.len() - 1]);
            }
        }
    }
}

/// Puts values in the order of their time.
pub fn order_by_time<T>(items: Vec<(Timestamp, T)>) -> (ordered: Vec<(Timestamp, T)>)
    ensures
        ordered@ == in_order(items@),
{
    let ghost all = items@;
    let mut ordered: Vec<(Timestamp, T)> = Vec::new();
    assert(all.take(0) =~= Seq::<(Timestamp, T)>::empty());
    for one in iter: items
        invariant
            all == items@,
            iter.seq() == all,
            ordered@ == in_order(all.take(iter.index())),
    {
        proof {
            let n = iter.index();
            assert(one == all[n]);
            assert(all.take(n + 1).drop_last() =~= all.take(n));
            assert(all.take(n + 1).last() == one);
        }
        let mut p: usize = ordered.len();
        while p > 0 && ordered[p - 1].0 > one.0
            invariant
                p <= ordered.len(),
                forall|i: int| p <= i < ordered@.len() ==> (#[trigger] ordered@[i]).0 > one.0,
            decreases p,
        {
            p -= 1;
        }
        proof {
            lemma_placed_at(ordered@, one, p as int);
        }
        ordered.insert(p, one);
    }
    assert(all.take(all.len() as int) =~= all);
    ordered
}

/// Puts values in the order of their time, and leaves the time away.
pub fn values_by_time<T>(items: Vec<(Timestamp, T)>) -> (values: Vec<T>)
    ensures
        values@ == by_time(items@),
{
    let ordered = order_by_time(items);
    let ghost all = ordered@;
    let ghost value = |item: (Timestamp, T)| item.1;
    let mut values: Vec<T> = Vec::new();
    for one in iter: ordered
        invariant
            all == ordered@,
            iter.seq() == all,
            value == (|item: (Timestamp, T)| item.1),
            values@ == all.take(iter.index()).map_values(value),
    {
        proof {
            let n = iter.index();
            assert(one == all[n]);
            assert(all.take(n + 1) =~= all.take(n).push(one));
        }
        values.push(one.1);
    }
    assert(all.take(all.len() as int) =~= all);
    values
}

/// The values that are there keep their order: one more item adds its value at the end,
/// if it holds one.
pub proof fn law_present_in_order<T>(items: Seq<Option<T>>, item: Option<T>)
    ensures
        present(Seq::<Option<T>>::empty()).len() == 0,
        item matches Some(value) ==> present(items.push(item)) == present(items).push(value),
        item is None ==> present(items.push(item)) == present(items),
{
    assert(items.push(item).drop_last() =~= items);
}

} // verus!

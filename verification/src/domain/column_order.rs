//! The display order of columns: by their `order`, and among columns of one order the one
//! that stood first stays first.

use crate::domain::board::column_models;
use crate::domain::column::Column;
use crate::domain::column::ColumnModel;
use vstd::prelude::*;

verus! {

/// No column stands before one of a lower order.
pub open spec fn ordered(columns: Seq<ColumnModel>) -> bool {
    forall|i: int, j: int| 0 <= i <= j < columns.len() ==> columns[i].order <= columns[j].order
}

/// The columns of one order, as they follow each other.
pub open spec fn of_order(columns: Seq<ColumnModel>, order: u32) -> Seq<ColumnModel> {
    columns.filter(|c: ColumnModel| c.order == order)
}

/// `sorted` holds the columns of `from`, each as often as `from` does, by their order, and the
/// columns of each order follow each other as they did in `from`.
pub open spec fn stably_sorted(sorted: Seq<ColumnModel>, from: Seq<ColumnModel>) -> bool {
    &&& sorted.to_multiset() == from.to_multiset()
    &&& ordered(sorted)
    &&& forall|order: u32| of_order(sorted, order) == of_order(from, order)
}

/// Putting `column` into `sorted` behind the columns of its own or a lower order and before
/// those of a higher one extends a stable sort of `from` to one of `from` with `column` behind.
proof fn lemma_insert_sorted(
    sorted: Seq<ColumnModel>,
    from: Seq<ColumnModel>,
    at: int,
    column: ColumnModel,
)
    requires
        stably_sorted(sorted, from),
        0 <= at <= sorted.len(),
        forall|i: int| 0 <= i < at ==> sorted[i].order <= column.order,
        forall|i: int| at <= i < sorted.len() ==> sorted[i].order > column.order,
    ensures
        stably_sorted(sorted.insert(at, column), from.push(column)),
{
    let front = sorted.subrange(0, at);
    let back = sorted.subrange(at, sorted.len() as int);
    let after = sorted.insert(at, column);
    assert(sorted =~= front + back);
    assert(after.to_multiset() == from.push(column).to_multiset()) by {
        vstd::seq_lib::to_multiset_insert(sorted, at, column);
        vstd::seq_lib::to_multiset_build(from, column);
    }
    assert(ordered(after)) by {
        sorted.insert_ensures(at, column);
        assert forall|i: int, j: int| 0 <= i <= j < after.len() implies after[i].order
            <= after[j].order by {
            let a = if i < at {
                i
            } else {
                i - 1
            };
            let b = if j < at {
                j
            } else {
                j - 1
            };
            if i != at {
                assert(after[i] == sorted[a]);
            }
            if j != at {
                assert(after[j] == sorted[b]);
            }
        }
    }
    assert forall|order: u32| of_order(after, order) == of_order(from.push(column), order) by {
        let wanted = |c: ColumnModel| c.order == order;
        Seq::filter_distributes_over_add(front, back, wanted);
        Seq::filter_distributes_over_add(front.push(column), back, wanted);
        front.lemma_filter_push(column, wanted);
        from.lemma_filter_push(column, wanted);
        assert(of_order(sorted, order) == of_order(from, order));
        if column.order == order {
            assert(back.all(|c: ColumnModel| !wanted(c)));
            back.lemma_all_neg_filter_empty(wanted);
            assert(back.filter(wanted) =~= Seq::empty());
            assert(front.filter(wanted).push(column) + back.filter(wanted) =~= (front.filter(
                wanted,
            ) + back.filter(wanted)).push(column));
        }
    }
}

/// Sorts the columns by their order; columns of one order keep their places among each other.
pub fn sort_columns(columns: &mut Vec<Column>)
    ensures
        stably_sorted(column_models(final(columns)@), column_models(old(columns)@)),
{
    let mut sorted: Vec<Column> = Vec::new();
    let ghost taken: Seq<ColumnModel> = Seq::empty();
    proof {
        assert(column_models(sorted@) =~= Seq::empty());
        assert forall|order: u32| of_order(Seq::<ColumnModel>::empty(), order) == of_order(
            taken,
            order,
        ) by {}
    }
    while columns.len() > 0
        invariant
            stably_sorted(column_models(sorted@), taken),
            taken + column_models(columns@) == column_models(old(columns)@),
        decreases columns.len(),
    {
        let ghost before = column_models(columns@);
        let column = columns.remove(0);
        let mut at: usize = 0;
        while at < sorted.len() && sorted[at].order <= column.order
            invariant
                at <= sorted.len(),
                forall|i: int| 0 <= i < at ==> column_models(sorted@)[i].order <= column.order,
            decreases sorted.len() - at,
        {
            at += 1;
        }
        proof {
            let models = column_models(sorted@);
            assert forall|i: int| at <= i < models.len() implies models[i].order
                > column.order by {
                assert(models[at as int].order <= models[i].order);
            }
            lemma_insert_sorted(models, taken, at as int, column@);
            assert(taken.push(column@) + column_models(columns@) =~= taken + before);
            taken = taken.push(column@);
        }
        let ghost models = column_models(sorted@);
        sorted.insert(at, column);
        assert(column_models(sorted@) =~= models.insert(at as int, column@));
    }
    proof {
        assert(taken =~= taken + column_models(columns@));
    }
    *columns = sorted;
}

/// Two arrangements by order of the same columns, with the columns of each order in the same
/// sequence, are one and the same.
proof fn lemma_ordered_arrangement_unique(a: Seq<ColumnModel>, b: Seq<ColumnModel>)
    requires
        ordered(a),
        ordered(b),
        a.to_multiset() == b.to_multiset(),
        forall|order: u32| of_order(a, order) == of_order(b, order),
    ensures
        a == b,
    decreases a.len(),
{
    a.to_multiset_ensures();
    b.to_multiset_ensures();
    if a.len() == 0 {
        assert(a =~= b);
    } else {
        let x = a.last();
        let y = b.last();
        let front_a = a.drop_last();
        let front_b = b.drop_last();
        assert(a =~= front_a.push(x));
        assert(b =~= front_b.push(y));
        assert(x.order == y.order) by {
            assert(a.contains(x));
            assert(a.to_multiset().count(x) > 0);
            assert(b.contains(x));
            let i = choose|i: int| 0 <= i < b.len() && b[i] == x;
            assert(b[i].order <= b[b.len() - 1].order);
            assert(b.contains(y));
            assert(b.to_multiset().count(y) > 0);
            assert(a.contains(y));
            let j = choose|j: int| 0 <= j < a.len() && a[j] == y;
            assert(a[j].order <= a[a.len() - 1].order);
        }
        let top = |c: ColumnModel| c.order == x.order;
        front_a.lemma_filter_push(x, top);
        front_b.lemma_filter_push(y, top);
        assert(of_order(a, x.order) == of_order(b, x.order));
        assert(front_a.filter(top).push(x) == front_b.filter(top).push(y));
        assert(x == y) by {
            assert(front_a.filter(top).push(x).last() == x);
            assert(front_b.filter(top).push(y).last() == y);
        }
        assert(front_a.filter(top) =~= front_b.filter(top)) by {
            assert(front_a.filter(top).push(x).drop_last() =~= front_a.filter(top));
            assert(front_b.filter(top).push(y).drop_last() =~= front_b.filter(top));
        }
        assert forall|order: u32| of_order(front_a, order) == of_order(front_b, order) by {
            let wanted = |c: ColumnModel| c.order == order;
            front_a.lemma_filter_push(x, wanted);
            front_b.lemma_filter_push(y, wanted);
            assert(of_order(a, order) == of_order(b, order));
        }
        assert(front_a.to_multiset() =~= front_b.to_multiset()) by {
            vstd::seq_lib::to_multiset_remove(a, a.len() - 1);
            vstd::seq_lib::to_multiset_remove(b, b.len() - 1);
            assert(a.remove(a.len() - 1) =~= front_a);
            assert(b.remove(b.len() - 1) =~= front_b);
        }
        lemma_ordered_arrangement_unique(front_a, front_b);
    }
}

/// There is one way to sort columns stably: what `stably_sorted` says of a list of columns,
/// it says of one arrangement only.
pub proof fn lemma_stable_sort_unique(
    first: Seq<ColumnModel>,
    second: Seq<ColumnModel>,
    from: Seq<ColumnModel>,
)
    requires
        stably_sorted(first, from),
        stably_sorted(second, from),
    ensures
        first == second,
{
    assert forall|order: u32| of_order(first, order) == of_order(second, order) by {
        assert(of_order(first, order) == of_order(from, order));
        assert(of_order(second, order) == of_order(from, order));
    }
    lemma_ordered_arrangement_unique(first, second);
}

} // verus!

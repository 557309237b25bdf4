//! Laws of distinct accumulation.
//!
//! The accumulator contracts state each operation's effect as a set union:
//! an update unions in a column's present values, a merge unions in a state
//! column's transferred values, and evaluation projects the set's
//! cardinality. The laws here say what those unions guarantee across calls:
//! null positions never matter, re-delivered states never matter, and any
//! partitioning of a dataset into sub-batches, merged in any order, reaches
//! the distinct set of the whole dataset.

use vstd::prelude::*;

use crate::column::present_values;
use crate::column::state_values;
use crate::column::ListValue;
use crate::scalar::ValueModel;

verus! {

/// Law: accumulation is null-insensitive. A column's contribution to the
/// distinct set equals the contribution of the same column with its null
/// positions removed, so the evaluated count is the count over the non-null
/// values alone.
pub proof fn lemma_null_insensitive(cells: Seq<Option<ValueModel>>)
    ensures
        present_values(cells) == present_values(cells.filter(|c: Option<ValueModel>| c is Some)),
    decreases cells.len(),
{
    let pred = |c: Option<ValueModel>| c is Some;
    reveal_with_fuel(Seq::filter, 2);
    if cells.len() == 0 {
        assert(present_values(cells) =~= present_values(cells.filter(pred)));
    } else {
        let rest = cells.drop_last();
        lemma_null_insensitive(rest);
        assert(cells.subrange(0, cells.len() - 1) =~= rest);
        assert(cells.subrange(0, cells.len() as int) =~= cells);
        crate::column::lemma_present_values_step(cells, cells.len() - 1);
        if cells.last() is Some {
            let f = rest.filter(pred).push(cells.last());
            assert(cells.filter(pred) == f);
            assert(f.subrange(0, f.len() - 1) =~= rest.filter(pred));
            assert(f.subrange(0, f.len() as int) =~= f);
            crate::column::lemma_present_values_step(f, f.len() - 1);
            assert(present_values(cells) =~= present_values(cells.filter(pred)));
        } else {
            assert(cells.filter(pred) == rest.filter(pred));
            assert(present_values(cells) =~= present_values(cells.filter(pred)));
        }
    }
}

/// Law: merging the same serialized state twice yields the same distinct set
/// — and therefore the same evaluated count — as merging it once. Duplicate
/// delivery in a distributed merge is harmless.
pub proof fn lemma_merge_idempotent(acc: Set<ValueModel>, state: Set<ValueModel>)
    ensures
        acc.union(state).union(state) == acc.union(state),
{
    assert(acc.union(state).union(state) =~= acc.union(state));
}

/// Law: a state transfer is lossless for cardinality. An accumulator
/// materializes its distinct set as a state list holding exactly that set;
/// wrapped as a single-row state column and merged into a fresh (empty)
/// accumulator, it reproduces the original distinct set, hence the original
/// count.
pub proof fn lemma_state_round_trip(state: ListValue, original: Set<ValueModel>)
    requires
        state.value_set() == original,
    ensures
        state_values(seq![Some(state)]) == original,
        Set::<ValueModel>::empty().union(original) == original,
{
    let rows: Seq<Option<ListValue>> = seq![Some(state)];
    assert forall|m: ValueModel| state_values(rows).contains(m) implies original.contains(m) by {
        let j = choose|j: int|
            0 <= j < rows.len() && (#[trigger] rows[j] matches Some(lv) && lv.value_set().contains(
                m,
            ));
    };
    assert forall|m: ValueModel| original.contains(m) implies state_values(rows).contains(m) by {
        assert(rows[0] matches Some(lv) && lv.value_set().contains(m));
    };
    assert(state_values(rows) =~= original);
    assert(Set::<ValueModel>::empty().union(original) =~= original);
}

/// The union of a sequence of partial distinct sets, in order.
pub open spec fn union_all(parts: Seq<Set<ValueModel>>) -> Set<ValueModel>
    decreases parts.len(),
{
    if parts.len() == 0 {
        Set::empty()
    } else {
        parts.first().union(union_all(parts.drop_first()))
    }
}

/// A value is in the union of partial sets exactly when some partial set
/// holds it.
pub proof fn lemma_union_all_membership(parts: Seq<Set<ValueModel>>, m: ValueModel)
    ensures
        union_all(parts).contains(m) <==> exists|i: int|
            0 <= i < parts.len() && #[trigger] parts[i].contains(m),
    decreases parts.len(),
{
    if parts.len() > 0 {
        let rest = parts.drop_first();
        lemma_union_all_membership(rest, m);
        if union_all(parts).contains(m) {
            if parts.first().contains(m) {
                assert(parts[0].contains(m));
            } else {
                let i = choose|i: int| 0 <= i < rest.len() && #[trigger] rest[i].contains(m);
                assert(parts[i + 1].contains(m));
            }
        }
        if exists|i: int| 0 <= i < parts.len() && #[trigger] parts[i].contains(m) {
            let i = choose|i: int| 0 <= i < parts.len() && #[trigger] parts[i].contains(m);
            if i > 0 {
                assert(rest[i - 1].contains(m));
            }
        }
    }
}

/// Concatenating two cell sequences unions their contributions.
pub proof fn lemma_present_values_concat(
    a: Seq<Option<ValueModel>>,
    b: Seq<Option<ValueModel>>,
)
    ensures
        present_values(a + b) == present_values(a).union(present_values(b)),
{
    assert forall|m: ValueModel| present_values(a + b).contains(m) implies present_values(a).union(
        present_values(b),
    ).contains(m) by {
        let j = choose|j: int| 0 <= j < (a + b).len() && (a + b)[j] == Some(m);
        if j < a.len() {
            assert(a[j] == Some(m));
        } else {
            assert(b[j - a.len()] == Some(m));
        }
    };
    assert forall|m: ValueModel|
        present_values(a).union(present_values(b)).contains(m) implies present_values(
        a + b,
    ).contains(m) by {
        if present_values(a).contains(m) {
            let j = choose|j: int| 0 <= j < a.len() && a[j] == Some(m);
            assert((a + b)[j] == Some(m));
        } else {
            let j = choose|j: int| 0 <= j < b.len() && b[j] == Some(m);
            assert((a + b)[a.len() + j] == Some(m));
        }
    };
    assert(present_values(a + b) =~= present_values(a).union(present_values(b)));
}

/// Law, completeness half: splitting a dataset into any consecutive grouping
/// of sub-batches, accumulating each sub-batch independently, and merging
/// all the partial sets yields exactly the distinct set of the whole
/// dataset.
pub proof fn lemma_partition_union(parts: Seq<Seq<Option<ValueModel>>>)
    ensures
        union_all(parts.map_values(|p: Seq<Option<ValueModel>>| present_values(p)))
            == present_values(parts.flatten()),
    decreases parts.len(),
{
    let f = |p: Seq<Option<ValueModel>>| present_values(p);
    if parts.len() == 0 {
        assert(present_values(parts.flatten()) =~= Set::<ValueModel>::empty());
        assert(union_all(parts.map_values(f)) == Set::<ValueModel>::empty());
    } else {
        let rest = parts.drop_first();
        lemma_partition_union(rest);
        lemma_present_values_concat(parts.first(), rest.flatten());
        let mapped = parts.map_values(f);
        assert(mapped.drop_first() =~= rest.map_values(f));
        assert(mapped.first() == f(parts.first()));
        assert(union_all(mapped) == present_values(parts.first()).union(
            union_all(rest.map_values(f)),
        ));
    }
}

/// Law, order half: merging the partial sets in any order — any reordering,
/// even with repetitions rearranged — yields the same distinct set, because
/// set union is commutative and associative.
pub proof fn lemma_merge_order_irrelevant(
    parts: Seq<Set<ValueModel>>,
    reordered: Seq<Set<ValueModel>>,
)
    requires
        parts.to_multiset() == reordered.to_multiset(),
    ensures
        union_all(parts) == union_all(reordered),
{
    broadcast use vstd::seq_lib::group_to_multiset_ensures;

    assert forall|m: ValueModel| union_all(parts).contains(m) implies union_all(
        reordered,
    ).contains(m) by {
        lemma_union_all_membership(parts, m);
        lemma_union_all_membership(reordered, m);
        let i = choose|i: int| 0 <= i < parts.len() && #[trigger] parts[i].contains(m);
        assert(parts.contains(parts[i]));
        assert(reordered.to_multiset().count(parts[i]) > 0);
        assert(reordered.contains(parts[i]));
        let j = choose|j: int| 0 <= j < reordered.len() && reordered[j] == parts[i];
        assert(reordered[j].contains(m));
    };
    assert forall|m: ValueModel| union_all(reordered).contains(m) implies union_all(
        parts,
    ).contains(m) by {
        lemma_union_all_membership(parts, m);
        lemma_union_all_membership(reordered, m);
        let i = choose|i: int| 0 <= i < reordered.len() && #[trigger] reordered[i].contains(m);
        assert(reordered.contains(reordered[i]));
        assert(parts.to_multiset().count(reordered[i]) > 0);
        assert(parts.contains(reordered[i]));
        let j = choose|j: int| 0 <= j < parts.len() && parts[j] == reordered[i];
        assert(parts[j].contains(m));
    };
    assert(union_all(parts) =~= union_all(reordered));
}

} // verus!

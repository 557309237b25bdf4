//! Column batches and state-transfer lists.
//!
//! A [`Column`] is one evaluated expression over a batch of rows: a declared
//! type and one optional cell per row, `None` where the row is null. A
//! [`ListValue`] is one accumulator's materialized distinct set. A
//! [`ListColumn`] is the merge input: a list-typed column in which every
//! present row is one partial accumulator's set.
//!
//! Each type carries a `wf` well-formedness predicate — every present cell
//! is a value of the declared type — which the checked constructors
//! establish and every consumer requires.

use vstd::prelude::*;

use crate::error::AggError;
use crate::scalar::cell_matches;
use crate::scalar::Scalar;
use crate::scalar::ValueModel;
use crate::types::ColumnType;

verus! {

/// One typed column of a record batch.
#[derive(Debug)]
pub struct Column {
    pub dtype: ColumnType,
    pub cells: Vec<Option<Scalar>>,
}

/// The set of values that appear in at least one non-null cell.
pub open spec fn present_values(cells: Seq<Option<ValueModel>>) -> Set<ValueModel> {
    Set::new(
        |m: ValueModel| exists|j: int| 0 <= j < cells.len() && cells[j] == Some(m),
    )
}

impl Column {
    /// Every present cell is a value of the declared type.
    pub open spec fn wf(&self) -> bool {
        forall|i: int|
            0 <= i < self.cells@.len() ==> (#[trigger] self.cells@[i] matches Some(s)
                ==> cell_matches(s@, self.dtype@))
    }

    /// The cells, as models.
    pub open spec fn cell_models(&self) -> Seq<Option<ValueModel>> {
        self.cells@.map_values(
            |c: Option<Scalar>|
                match c {
                    Some(s) => Some(s@),
                    None => None,
                },
        )
    }

    /// Builds a column, checking that every present cell is a value of the
    /// declared type.
    pub fn new(dtype: ColumnType, cells: Vec<Option<Scalar>>) -> (r: Result<Column, AggError>)
        ensures
            match r {
                Ok(c) => {
                    &&& c.wf()
                    &&& c == (Column { dtype, cells })
                },
                Err(e) => {
                    &&& e == AggError::UnexpectedArrayType
                    &&& !(Column { dtype, cells }).wf()
                },
            },
    {
        let mut i: usize = 0;
        while i < cells.len()
            invariant
                i <= cells@.len(),
                forall|j: int|
                    0 <= j < i ==> (#[trigger] cells@[j] matches Some(s) ==> cell_matches(
                        s@,
                        dtype@,
                    )),
            decreases cells@.len() - i,
        {
            match &cells[i] {
                Some(s) => {
                    if !s.matches_type(&dtype) {
                        return Err(AggError::UnexpectedArrayType);
                    }
                },
                None => {},
            }
            i = i + 1;
        }
        Ok(Column { dtype, cells })
    }
}

/// One accumulator's distinct set, materialized as a single list value whose
/// elements all have one declared type. This is the only form in which
/// accumulator state crosses a partition or stage boundary.
#[derive(Debug)]
pub struct ListValue {
    pub element_type: ColumnType,
    pub values: Vec<Scalar>,
}

impl ListValue {
    /// Every element is a value of the element type.
    pub open spec fn wf(&self) -> bool {
        forall|i: int|
            0 <= i < self.values@.len() ==> cell_matches(
                #[trigger] self.values@[i]@,
                self.element_type@,
            )
    }

    /// The elements, as models, in materialization order.
    pub open spec fn value_models(&self) -> Seq<ValueModel> {
        self.values@.map_values(|s: Scalar| s@)
    }

    /// The elements as a set: the distinct set the list transfers.
    pub open spec fn value_set(&self) -> Set<ValueModel> {
        self.value_models().to_set()
    }

    /// Builds a list value, checking that every element is a value of the
    /// element type.
    pub fn new(element_type: ColumnType, values: Vec<Scalar>) -> (r: Result<ListValue, AggError>)
        ensures
            match r {
                Ok(lv) => {
                    &&& lv.wf()
                    &&& lv == (ListValue { element_type, values })
                },
                Err(e) => {
                    &&& e == AggError::UnexpectedArrayType
                    &&& !(ListValue { element_type, values }).wf()
                },
            },
    {
        let mut i: usize = 0;
        while i < values.len()
            invariant
                i <= values@.len(),
                forall|j: int| 0 <= j < i ==> cell_matches(#[trigger] values@[j]@, element_type@),
            decreases values@.len() - i,
        {
            if !values[i].matches_type(&element_type) {
                proof {
                    let witness = (ListValue { element_type, values });
                    assert(!cell_matches(witness.values@[i as int]@, witness.element_type@));
                }
                return Err(AggError::UnexpectedArrayType);
            }
            i = i + 1;
        }
        Ok(ListValue { element_type, values })
    }
}

/// The set of values transferred by a sequence of optional state lists.
pub open spec fn state_values(rows: Seq<Option<ListValue>>) -> Set<ValueModel> {
    Set::new(
        |m: ValueModel|
            exists|j: int|
                0 <= j < rows.len() && (#[trigger] rows[j] matches Some(lv)
                    && lv.value_set().contains(m)),
    )
}

/// Extending a prefix of cells by one cell adds that cell's value, when it
/// is present, and nothing otherwise.
pub proof fn lemma_present_values_step(cells: Seq<Option<ValueModel>>, i: int)
    requires
        0 <= i < cells.len(),
    ensures
        present_values(cells.subrange(0, i + 1)) == match cells[i] {
            Some(m) => present_values(cells.subrange(0, i)).insert(m),
            None => present_values(cells.subrange(0, i)),
        },
{
    let a = cells.subrange(0, i + 1);
    let b = cells.subrange(0, i);
    let target = match cells[i] {
        Some(m) => present_values(b).insert(m),
        None => present_values(b),
    };
    assert forall|m: ValueModel| present_values(a).contains(m) implies target.contains(m) by {
        let j = choose|j: int| 0 <= j < a.len() && a[j] == Some(m);
        if j < i {
            assert(b[j] == Some(m));
        }
    };
    assert forall|m: ValueModel| target.contains(m) implies present_values(a).contains(m) by {
        if present_values(b).contains(m) {
            let j = choose|j: int| 0 <= j < b.len() && b[j] == Some(m);
            assert(a[j] == Some(m));
        } else {
            assert(a[i] == cells[i]);
        }
    };
    assert(present_values(a) =~= target);
}

/// No prefix of an all-null or empty cell sequence contributes a value.
pub proof fn lemma_present_values_empty(cells: Seq<Option<ValueModel>>)
    requires
        forall|j: int| 0 <= j < cells.len() ==> cells[j] is None,
    ensures
        present_values(cells) == Set::<ValueModel>::empty(),
{
    assert(present_values(cells) =~= Set::<ValueModel>::empty());
}

/// A list-typed column: the state-transfer input of a merge. Every present
/// row is one partial accumulator's distinct set; all rows share one element
/// type.
#[derive(Debug)]
pub struct ListColumn {
    pub element_type: ColumnType,
    pub rows: Vec<Option<ListValue>>,
}

impl ListColumn {
    /// Every present row is well-formed and has this column's element type.
    pub open spec fn wf(&self) -> bool {
        forall|i: int|
            0 <= i < self.rows@.len() ==> (#[trigger] self.rows@[i] matches Some(lv) ==> lv.wf()
                && lv.element_type@ == self.element_type@)
    }

    /// The set of values the column transfers.
    pub open spec fn merged_values(&self) -> Set<ValueModel> {
        state_values(self.rows@)
    }

    /// Builds a state column, checking that every present row has the given
    /// element type and well-typed elements.
    pub fn new(element_type: ColumnType, rows: Vec<Option<ListValue>>) -> (r: Result<
        ListColumn,
        AggError,
    >)
        ensures
            match r {
                Ok(lc) => {
                    &&& lc.wf()
                    &&& lc == (ListColumn { element_type, rows })
                },
                Err(e) => e == AggError::UnexpectedArrayType,
            },
    {
        let mut i: usize = 0;
        while i < rows.len()
            invariant
                i <= rows@.len(),
                forall|j: int|
                    0 <= j < i ==> (#[trigger] rows@[j] matches Some(lv) ==> lv.wf()
                        && lv.element_type@ == element_type@),
            decreases rows@.len() - i,
        {
            match &rows[i] {
                Some(lv) => {
                    if !(lv.element_type == element_type) {
                        return Err(AggError::UnexpectedArrayType);
                    }
                    let mut k: usize = 0;
                    while k < lv.values.len()
                        invariant
                            k <= lv.values@.len(),
                            forall|j: int|
                                0 <= j < k ==> cell_matches(
                                    #[trigger] lv.values@[j]@,
                                    lv.element_type@,
                                ),
                        decreases lv.values@.len() - k,
                    {
                        if !lv.values[k].matches_type(&lv.element_type) {
                            return Err(AggError::UnexpectedArrayType);
                        }
                        k = k + 1;
                    }
                },
                None => {},
            }
            i = i + 1;
        }
        Ok(ListColumn { element_type, rows })
    }

    /// Extending a prefix of state rows by one row unions in that row's set,
    /// when the row is present, and nothing otherwise.
    pub proof fn lemma_state_values_step(rows: Seq<Option<ListValue>>, i: int)
        requires
            0 <= i < rows.len(),
        ensures
            state_values(rows.subrange(0, i + 1)) == match rows[i] {
                Some(lv) => state_values(rows.subrange(0, i)).union(lv.value_set()),
                None => state_values(rows.subrange(0, i)),
            },
    {
        let a = rows.subrange(0, i + 1);
        let b = rows.subrange(0, i);
        let target = match rows[i] {
            Some(lv) => state_values(b).union(lv.value_set()),
            None => state_values(b),
        };
        assert forall|m: ValueModel| state_values(a).contains(m) implies target.contains(m) by {
            let j = choose|j: int|
                0 <= j < a.len() && (#[trigger] a[j] matches Some(lv) && lv.value_set().contains(
                    m,
                ));
            if j < i {
                assert(b[j] == a[j]);
                assert(b[j] matches Some(lv) && lv.value_set().contains(m));
            } else {
                assert(a[j] == rows[i]);
            }
        };
        assert forall|m: ValueModel| target.contains(m) implies state_values(a).contains(m) by {
            if state_values(b).contains(m) {
                let j = choose|j: int|
                    0 <= j < b.len() && (#[trigger] b[j] matches Some(lv)
                        && lv.value_set().contains(m));
                assert(a[j] == b[j]);
                assert(a[j] matches Some(lv) && lv.value_set().contains(m));
            } else {
                assert(a[i] == rows[i]);
                assert(a[i] matches Some(lv) && lv.value_set().contains(m));
            }
        };
        assert(state_values(a) =~= target);
    }

    /// Wraps one accumulator's state as a single-row state column, the shape
    /// the two-phase protocol transfers.
    pub fn singleton(state: ListValue) -> (r: ListColumn)
        requires
            state.wf(),
        ensures
            r.wf(),
            r.element_type@ == state.element_type@,
            r.merged_values() == state.value_set(),
    {
        let element_type = state.element_type.duplicate();
        let ghost sv = state.value_set();
        let rows = vec![Some(state)];
        let r = ListColumn { element_type, rows };
        proof {
            assert(r.merged_values() =~= sv);
        }
        r
    }
}

} // verus!

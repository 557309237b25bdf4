//! The generic fallback distinct accumulator.
//!
//! Stores each distinct value as a tagged scalar. Slower and more
//! memory-hungry per element than the specialized variants, but total: it
//! serves every declared type without a dedicated variant, which is what
//! guarantees that dispatch can always produce a working accumulator.

use vstd::prelude::*;

use crate::column::present_values;
use crate::column::Column;
use crate::column::ListColumn;
use crate::column::ListValue;
use crate::error::AggError;
use crate::estimate::add_sat;
use crate::estimate::mul_sat;
use crate::estimate::vec_capacity;
use crate::scalar::cell_matches;
use crate::scalar::scalar_extra_bytes;
use crate::scalar::Scalar;
use crate::scalar::ValueModel;
use crate::sets::lemma_to_set_step;
use crate::types::spec_is_primitive;
use crate::types::ColumnType;

verus! {

/// The summed extra heap footprint of a sequence of stored scalars.
pub open spec fn scalars_extra(ss: Seq<Scalar>) -> int
    decreases ss.len(),
{
    if ss.len() == 0 {
        0
    } else {
        scalars_extra(ss.drop_last()) + scalar_extra_bytes(ss.last())
    }
}

/// An extra-footprint sum is never negative.
pub proof fn lemma_scalars_extra_nonneg(ss: Seq<Scalar>)
    ensures
        scalars_extra(ss) >= 0,
    decreases ss.len(),
{
    if ss.len() > 0 {
        lemma_scalars_extra_nonneg(ss.drop_last());
    }
}

/// Distinct counting over any declared type, storing tagged scalars.
#[derive(Debug)]
pub struct DistinctCountAccumulator {
    pub values: Vec<Scalar>,
    pub state_data_type: ColumnType,
}

impl DistinctCountAccumulator {
    /// Every stored scalar is a value of the declared type, and none is
    /// stored twice.
    pub open spec fn wf(&self) -> bool {
        &&& forall|i: int|
            0 <= i < self.values@.len() ==> cell_matches(
                #[trigger] self.values@[i]@,
                self.state_data_type@,
            )
        &&& forall|i: int, j: int|
            0 <= i < j < self.values@.len() ==> self.values@[i]@ != self.values@[j]@
    }

    /// The stored values as models, in storage order.
    pub open spec fn model_seq(&self) -> Seq<ValueModel> {
        self.values@.map_values(|s: Scalar| s@)
    }

    /// The distinct set observed so far.
    pub open spec fn distinct_set(&self) -> Set<ValueModel> {
        self.model_seq().to_set()
    }

    /// The stored models carry no duplicates.
    pub proof fn lemma_models_no_dup(&self)
        requires
            self.wf(),
        ensures
            self.model_seq().no_duplicates(),
    {
        assert forall|i: int, j: int|
            0 <= i < self.model_seq().len() && 0 <= j < self.model_seq().len() && i
                != j implies self.model_seq()[i] != self.model_seq()[j] by {
            if i < j {
                assert(self.values@[i]@ != self.values@[j]@);
            } else {
                assert(self.values@[j]@ != self.values@[i]@);
            }
        };
    }

    /// The cardinality of the distinct set is the storage length.
    pub proof fn lemma_count(&self)
        requires
            self.wf(),
        ensures
            self.distinct_set().finite(),
            self.distinct_set().len() == self.values@.len(),
    {
        broadcast use vstd::seq_lib::seq_to_set_is_finite;

        self.lemma_models_no_dup();
        self.model_seq().unique_seq_to_set();
    }

    /// A fresh, empty accumulator for a declared type.
    pub fn new(state_data_type: ColumnType) -> (r: Self)
        ensures
            r.wf(),
            r.state_data_type@ == state_data_type@,
            r.distinct_set() == Set::<ValueModel>::empty(),
    {
        let r = DistinctCountAccumulator { values: Vec::new(), state_data_type };
        proof {
            assert(r.distinct_set() =~= Set::<ValueModel>::empty());
        }
        r
    }

    /// Whether an equal scalar is already stored.
    fn contains_scalar(&self, s: &Scalar) -> (r: bool)
        ensures
            r == exists|j: int| 0 <= j < self.values@.len() && #[trigger] self.values@[j]@ == s@,
    {
        let mut i: usize = 0;
        while i < self.values.len()
            invariant
                i <= self.values@.len(),
                forall|j: int| 0 <= j < i ==> #[trigger] self.values@[j]@ != s@,
            decreases self.values@.len() - i,
        {
            let cur: &Scalar = &self.values[i];
            if cur.eq(s) {
                return true;
            }
            i = i + 1;
        }
        false
    }

    /// Inserts a scalar; a duplicate insert is a no-op.
    fn insert_scalar(&mut self, s: Scalar)
        requires
            old(self).wf(),
            cell_matches(s@, old(self).state_data_type@),
        ensures
            final(self).wf(),
            final(self).state_data_type == old(self).state_data_type,
            final(self).distinct_set() == old(self).distinct_set().insert(s@),
    {
        let ghost m = s@;
        if !self.contains_scalar(&s) {
            self.values.push(s);
            proof {
                let sq = self.model_seq();
                let olds = old(self).model_seq();
                assert(sq =~= olds.push(m));
                assert(sq.subrange(0, olds.len() as int) =~= olds);
                lemma_to_set_step(sq, olds.len() as int);
                assert(sq.subrange(0, sq.len() as int) =~= sq);
                assert(self.distinct_set() =~= old(self).distinct_set().insert(m));
            }
        } else {
            proof {
                let j = choose|j: int|
                    0 <= j < old(self).values@.len() && #[trigger] old(self).values@[j]@ == m;
                assert(old(self).model_seq()[j] == m);
                assert(old(self).distinct_set().contains(m));
                assert(self.distinct_set() =~= old(self).distinct_set().insert(m));
            }
        }
    }

    /// Consumes one column batch: every non-null cell of the first column is
    /// inserted. Empty input and a null-typed column are no-ops; a column of
    /// any other declared type than the accumulator's is rejected unchanged.
    pub fn update_batch(&mut self, values: &[Column]) -> (r: Result<(), AggError>)
        requires
            old(self).wf(),
            values@.len() > 0 ==> values@[0].wf(),
        ensures
            final(self).wf(),
            final(self).state_data_type == old(self).state_data_type,
            ({
                if values@.len() == 0 {
                    r is Ok && final(self).distinct_set() == old(self).distinct_set()
                } else if values@[0].dtype@ is Null {
                    r is Ok && final(self).distinct_set() == old(self).distinct_set()
                } else if values@[0].dtype@ == old(self).state_data_type@ {
                    r is Ok && final(self).distinct_set() == old(self).distinct_set().union(
                        present_values(values@[0].cell_models()),
                    )
                } else {
                    r == Err::<(), AggError>(AggError::UnexpectedArrayType) && final(self).distinct_set() == old(self).distinct_set()
                }
            }),
    {
        if values.len() == 0 {
            return Ok(());
        }
        let c = &values[0];
        if c.dtype == ColumnType::Null {
            return Ok(());
        }
        if !(c.dtype == self.state_data_type) {
            return Err(AggError::UnexpectedArrayType);
        }
        let ghost cm = c.cell_models();
        proof {
            assert(present_values(cm.subrange(0, 0)) =~= Set::<ValueModel>::empty());
            assert(old(self).distinct_set().union(present_values(cm.subrange(0, 0))) =~= old(
                self,
            ).distinct_set());
        }
        let mut i: usize = 0;
        while i < c.cells.len()
            invariant
                self.wf(),
                self.state_data_type == old(self).state_data_type,
                c.wf(),
                c.dtype@ == old(self).state_data_type@,
                cm == c.cell_models(),
                i <= c.cells@.len(),
                cm.len() == c.cells@.len(),
                self.distinct_set() == old(self).distinct_set().union(
                    present_values(cm.subrange(0, i as int)),
                ),
            decreases c.cells@.len() - i,
        {
            match &c.cells[i] {
                Some(s) => {
                    proof {
                        assert(c.cells@[i as int] matches Some(x) && x@ == s@);
                        assert(cell_matches(s@, c.dtype@));
                    }
                    let owned = s.duplicate();
                    self.insert_scalar(owned);
                    proof {
                        assert(cm[i as int] == Some(s@));
                        crate::column::lemma_present_values_step(cm, i as int);
                        assert(self.distinct_set() =~= old(self).distinct_set().union(
                            present_values(cm.subrange(0, i + 1 as int)),
                        ));
                    }
                },
                None => {
                    proof {
                        assert(cm[i as int] is None);
                        crate::column::lemma_present_values_step(cm, i as int);
                    }
                },
            }
            i = i + 1;
        }
        proof {
            assert(cm.subrange(0, cm.len() as int) =~= cm);
        }
        Ok(())
    }

    /// Consumes the single state column of a merge step: every element of
    /// every present row is inserted.
    pub fn merge_batch(&mut self, states: &[ListColumn]) -> (r: Result<(), AggError>)
        requires
            old(self).wf(),
            states@.len() > 0 ==> states@[0].wf(),
        ensures
            final(self).wf(),
            final(self).state_data_type == old(self).state_data_type,
            ({
                if states@.len() == 0 {
                    r is Ok && final(self).distinct_set() == old(self).distinct_set()
                } else if states@.len() > 1 {
                    r == Err::<(), AggError>(AggError::MultipleStateArrays) && final(self).distinct_set() == old(self).distinct_set()
                } else if states@[0].element_type@ == old(self).state_data_type@ {
                    r is Ok && final(self).distinct_set() == old(self).distinct_set().union(
                        states@[0].merged_values(),
                    )
                } else {
                    r == Err::<(), AggError>(AggError::UnexpectedArrayType) && final(self).distinct_set() == old(self).distinct_set()
                }
            }),
    {
        if states.len() == 0 {
            return Ok(());
        }
        if states.len() > 1 {
            return Err(AggError::MultipleStateArrays);
        }
        let lc = &states[0];
        if !(lc.element_type == self.state_data_type) {
            return Err(AggError::UnexpectedArrayType);
        }
        let ghost rows = lc.rows@;
        proof {
            assert(crate::column::state_values(rows.subrange(0, 0)) =~= Set::<ValueModel>::empty());
            assert(old(self).distinct_set().union(crate::column::state_values(rows.subrange(0, 0)))
                =~= old(self).distinct_set());
        }
        let mut i: usize = 0;
        while i < lc.rows.len()
            invariant
                self.wf(),
                self.state_data_type == old(self).state_data_type,
                lc.wf(),
                lc.element_type@ == old(self).state_data_type@,
                rows == lc.rows@,
                i <= rows.len(),
                self.distinct_set() == old(self).distinct_set().union(
                    crate::column::state_values(rows.subrange(0, i as int)),
                ),
            decreases rows.len() - i,
        {
            let ghost set_before_row = self.distinct_set();
            match &lc.rows[i] {
                Some(lv) => {
                    proof {
                        assert(rows[i as int] matches Some(x) && x == *lv);
                        assert(lv.wf() && lv.element_type@ == lc.element_type@);
                    }
                    let vm = Ghost(lv.value_models());
                    proof {
                        assert(vm@.subrange(0, 0).to_set() =~= Set::<ValueModel>::empty());
                        assert(set_before_row.union(vm@.subrange(0, 0).to_set())
                            =~= set_before_row);
                    }
                    let mut k: usize = 0;
                    while k < lv.values.len()
                        invariant
                            self.wf(),
                            self.state_data_type == old(self).state_data_type,
                            lv.wf(),
                            lv.element_type@ == old(self).state_data_type@,
                            vm@ == lv.value_models(),
                            k <= lv.values@.len(),
                            vm@.len() == lv.values@.len(),
                            self.distinct_set() == set_before_row.union(
                                vm@.subrange(0, k as int).to_set(),
                            ),
                        decreases lv.values@.len() - k,
                    {
                        let s = &lv.values[k];
                        proof {
                            assert(cell_matches(lv.values@[k as int]@, lv.element_type@));
                        }
                        let owned = s.duplicate();
                        self.insert_scalar(owned);
                        proof {
                            assert(vm@[k as int] == s@);
                            lemma_to_set_step(vm@, k as int);
                            assert(self.distinct_set() =~= set_before_row.union(
                                vm@.subrange(0, k + 1 as int).to_set(),
                            ));
                        }
                        k = k + 1;
                    }
                    proof {
                        assert(vm@.subrange(0, vm@.len() as int) =~= vm@);
                        assert(lv.value_set() == vm@.to_set());
                        crate::column::ListColumn::lemma_state_values_step(rows, i as int);
                        assert(self.distinct_set() =~= old(self).distinct_set().union(
                            crate::column::state_values(rows.subrange(0, i + 1 as int)),
                        ));
                    }
                },
                None => {
                    proof {
                        assert(rows[i as int] is None);
                        crate::column::ListColumn::lemma_state_values_step(rows, i as int);
                        assert(self.distinct_set() =~= old(self).distinct_set().union(
                            crate::column::state_values(rows.subrange(0, i + 1 as int)),
                        ));
                    }
                },
            }
            i = i + 1;
        }
        proof {
            assert(rows.subrange(0, rows.len() as int) =~= rows);
        }
        Ok(())
    }

    /// Materializes the distinct set as a single list value of the declared
    /// type, in storage order, each element exactly once.
    pub fn state(&self) -> (r: Result<Vec<ListValue>, AggError>)
        requires
            self.wf(),
        ensures
            r matches Ok(st) && st@.len() == 1 && st@[0].wf() && st@[0].element_type@
                == self.state_data_type@ && st@[0].value_set() == self.distinct_set()
                && st@[0].value_models().no_duplicates(),
    {
        let element_type = self.state_data_type.duplicate();
        let mut scalars: Vec<Scalar> = Vec::new();
        let mut i: usize = 0;
        while i < self.values.len()
            invariant
                self.wf(),
                i <= self.values@.len(),
                scalars@.map_values(|s: Scalar| s@) == self.model_seq().subrange(0, i as int),
                scalars@.len() == i,
            decreases self.values@.len() - i,
        {
            let sc = self.values[i].duplicate();
            scalars.push(sc);
            proof {
                assert(scalars@.map_values(|s: Scalar| s@) =~= self.model_seq().subrange(
                    0,
                    i + 1 as int,
                ));
            }
            i = i + 1;
        }
        proof {
            assert(self.model_seq().subrange(0, self.model_seq().len() as int)
                =~= self.model_seq());
        }
        let lv = ListValue { element_type, values: scalars };
        proof {
            assert(lv.value_models() == self.model_seq());
            assert forall|j: int| 0 <= j < lv.values@.len() implies cell_matches(
                #[trigger] lv.values@[j]@,
                lv.element_type@,
            ) by {
                assert(lv.value_models()[j] == self.model_seq()[j]);
            };
            self.lemma_models_no_dup();
        }
        Ok(vec![lv])
    }

    /// The distinct count, as a signed 64-bit integer scalar.
    pub fn evaluate(&self) -> (r: Result<Scalar, AggError>)
        requires
            self.wf(),
        ensures
            r matches Ok(s) && s is Int64 && (self.distinct_set().len() <= i64::MAX ==> s@
                == ValueModel::Int64(self.distinct_set().len() as int)),
    {
        proof {
            self.lemma_count();
        }
        Ok(Scalar::Int64(#[verifier::truncate] (self.values.len() as i64)))
    }

    /// The approximate footprint, given an allocated element capacity: the
    /// accumulator itself, one scalar slot per allocated element, a single
    /// representative element's extra heap footprint, and the declared type.
    pub open spec fn fixed_size_model(&self, cap: int) -> int {
        vstd::layout::size_of::<Self>() + vstd::layout::size_of::<Scalar>() * cap + (
        if self.values@.len() == 0 {
            0
        } else {
            scalar_extra_bytes(self.values@[0])
        }) + vstd::layout::size_of::<ColumnType>()
    }

    /// The exact footprint, given an allocated element capacity: as the
    /// approximate tier, but summing every stored element's extra heap
    /// footprint.
    pub open spec fn full_size_model(&self, cap: int) -> int {
        vstd::layout::size_of::<Self>() + vstd::layout::size_of::<Scalar>() * cap + scalars_extra(
            self.values@,
        ) + vstd::layout::size_of::<ColumnType>()
    }

    /// The approximate footprint tier: O(1), sized from the first element.
    /// Suitable for fixed-width element types, where it is near-exact.
    pub fn fixed_size(&self) -> (r: usize)
        ensures
            exists|cap: int|
                self.values@.len() <= cap && r as int == if #[trigger] self.fixed_size_model(cap)
                    <= usize::MAX as int {
                    self.fixed_size_model(cap)
                } else {
                    usize::MAX as int
                },
    {
        let cap = vec_capacity(&self.values);
        let slots = mul_sat(core::mem::size_of::<Scalar>(), cap);
        let first_extra = if self.values.len() > 0 {
            self.values[0].extra_size()
        } else {
            0
        };
        let a = add_sat(core::mem::size_of::<Self>(), slots);
        let b = add_sat(a, first_extra);
        let r = add_sat(b, core::mem::size_of::<ColumnType>());
        proof {
            assert(self.values@.len() <= cap && r as int == if self.fixed_size_model(cap as int)
                <= usize::MAX as int {
                self.fixed_size_model(cap as int)
            } else {
                usize::MAX as int
            });
        }
        r
    }

    /// The exact footprint tier: O(n) in the set size, visiting every stored
    /// element. Suitable for variable-width element types.
    pub fn full_size(&self) -> (r: usize)
        ensures
            exists|cap: int|
                self.values@.len() <= cap && r as int == if #[trigger] self.full_size_model(cap)
                    <= usize::MAX as int {
                    self.full_size_model(cap)
                } else {
                    usize::MAX as int
                },
    {
        let cap = vec_capacity(&self.values);
        let slots = mul_sat(core::mem::size_of::<Scalar>(), cap);
        let mut extras: usize = 0;
        let mut i: usize = 0;
        while i < self.values.len()
            invariant
                i <= self.values@.len(),
                extras as int == if scalars_extra(self.values@.subrange(0, i as int))
                    <= usize::MAX as int {
                    scalars_extra(self.values@.subrange(0, i as int))
                } else {
                    usize::MAX as int
                },
            decreases self.values@.len() - i,
        {
            proof {
                lemma_scalars_extra_nonneg(self.values@.subrange(0, i as int));
                assert(self.values@.subrange(0, i + 1 as int).drop_last() =~= self.values@.subrange(
                    0,
                    i as int,
                ));
                assert(self.values@.subrange(0, i + 1 as int).last() == self.values@[i as int]);
            }
            extras = add_sat(extras, self.values[i].extra_size());
            i = i + 1;
        }
        proof {
            assert(self.values@.subrange(0, self.values@.len() as int) =~= self.values@);
            lemma_scalars_extra_nonneg(self.values@);
        }
        let a = add_sat(core::mem::size_of::<Self>(), slots);
        let b = add_sat(a, extras);
        let r = add_sat(b, core::mem::size_of::<ColumnType>());
        proof {
            assert(self.values@.len() <= cap && r as int == if self.full_size_model(cap as int)
                <= usize::MAX as int {
                self.full_size_model(cap as int)
            } else {
                usize::MAX as int
            });
        }
        r
    }

    /// The footprint at the tier the declared type calls for: fixed-width
    /// types take the O(1) tier, variable-width types the exact one.
    pub open spec fn size_model(&self, cap: int) -> int {
        if self.state_data_type@ is Boolean || self.state_data_type@ is Null || spec_is_primitive(
            self.state_data_type@,
        ) {
            self.fixed_size_model(cap)
        } else {
            self.full_size_model(cap)
        }
    }

    /// Reports the footprint at the tier the declared type calls for.
    pub fn size(&self) -> (r: usize)
        ensures
            exists|cap: int|
                self.values@.len() <= cap && r as int == if #[trigger] self.size_model(cap)
                    <= usize::MAX as int {
                    self.size_model(cap)
                } else {
                    usize::MAX as int
                },
    {
        let by_fixed = match self.state_data_type {
            ColumnType::Boolean => true,
            ColumnType::Null => true,
            _ => self.state_data_type.is_primitive(),
        };
        if by_fixed {
            let r = self.fixed_size();
            proof {
                let cap = choose|cap: int|
                    self.values@.len() <= cap && r as int == if #[trigger] self.fixed_size_model(
                        cap,
                    ) <= usize::MAX as int {
                        self.fixed_size_model(cap)
                    } else {
                        usize::MAX as int
                    };
                assert(self.size_model(cap) == self.fixed_size_model(cap));
            }
            r
        } else {
            let r = self.full_size();
            proof {
                let cap = choose|cap: int|
                    self.values@.len() <= cap && r as int == if #[trigger] self.full_size_model(
                        cap,
                    ) <= usize::MAX as int {
                        self.full_size_model(cap)
                    } else {
                        usize::MAX as int
                    };
                assert(self.size_model(cap) == self.full_size_model(cap));
            }
            r
        }
    }
}

} // verus!

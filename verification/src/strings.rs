//! The text distinct accumulator.
//!
//! Rather than boxing each value as a generic tagged scalar, text payloads
//! are stored directly, keyed by content. One accumulator serves both text
//! offset widths: `wide` selects between the narrow-offset and wide-offset
//! text types.

use vstd::prelude::*;

use crate::column::present_values;
use crate::column::Column;
use crate::column::ListColumn;
use crate::column::ListValue;
use crate::error::AggError;
use crate::estimate::add_sat;
use crate::estimate::string_heap_bytes;
use crate::scalar::cell_matches;
use crate::scalar::Scalar;
use crate::scalar::ValueModel;
use crate::sets::lemma_to_set_step;
use crate::types::ColumnType;
use crate::types::TypeModel;

verus! {

/// The text value of the given offset width.
pub open spec fn text_model(wide: bool, s: Seq<char>) -> ValueModel {
    if wide {
        ValueModel::LargeUtf8(s)
    } else {
        ValueModel::Utf8(s)
    }
}

/// The declared text type of the given offset width.
pub open spec fn text_type(wide: bool) -> TypeModel {
    if wide {
        TypeModel::LargeUtf8
    } else {
        TypeModel::Utf8
    }
}

/// Reads the text payload out of a text scalar.
fn text_of_scalar(s: &Scalar) -> (r: String)
    requires
        s@ is Utf8 || s@ is LargeUtf8,
    ensures
        s@ matches ValueModel::Utf8(t) ==> r@ == t,
        s@ matches ValueModel::LargeUtf8(t) ==> r@ == t,
{
    match s {
        Scalar::Utf8(t) => t.clone(),
        Scalar::LargeUtf8(t) => t.clone(),
        _ => unreached(),
    }
}

/// The modeled heap footprint of a stored text set: one string header and
/// the encoded byte payload per element.
pub open spec fn text_footprint(ss: Seq<String>) -> int
    decreases ss.len(),
{
    if ss.len() == 0 {
        0
    } else {
        text_footprint(ss.drop_last()) + vstd::layout::size_of::<String>() + string_heap_bytes(
            ss.last(),
        )
    }
}

/// Distinct counting over a text column, storing each distinct payload once.
#[derive(Debug)]
pub struct StringDistinctCountAccumulator {
    pub wide: bool,
    pub values: Vec<String>,
}

impl StringDistinctCountAccumulator {
    /// No payload is stored twice.
    pub open spec fn wf(&self) -> bool {
        forall|i: int, j: int|
            0 <= i < j < self.values@.len() ==> self.values@[i]@ != self.values@[j]@
    }

    /// The stored payloads as width-tagged models, in storage order.
    pub open spec fn model_seq(&self) -> Seq<ValueModel> {
        self.values@.map_values(|s: String| text_model(self.wide, s@))
    }

    /// The distinct set observed so far.
    pub open spec fn distinct_set(&self) -> Set<ValueModel> {
        self.model_seq().to_set()
    }

    /// The stored models carry no duplicates.
    pub proof fn lemma_models_no_dup(&self)
        requires
            self.wf(),
        ensures
            self.model_seq().no_duplicates(),
    {
        assert forall|i: int, j: int|
            0 <= i < self.model_seq().len() && 0 <= j < self.model_seq().len() && i
                != j implies self.model_seq()[i] != self.model_seq()[j] by {
            if i < j {
                assert(self.values@[i]@ != self.values@[j]@);
            } else {
                assert(self.values@[j]@ != self.values@[i]@);
            }
        };
    }

    /// The cardinality of the distinct set is the storage length.
    pub proof fn lemma_count(&self)
        requires
            self.wf(),
        ensures
            self.distinct_set().finite(),
            self.distinct_set().len() == self.values@.len(),
    {
        broadcast use vstd::seq_lib::seq_to_set_is_finite;

        self.lemma_models_no_dup();
        self.model_seq().unique_seq_to_set();
    }

    /// A fresh, empty accumulator for the given offset width.
    pub fn new(wide: bool) -> (r: Self)
        ensures
            r.wf(),
            r.wide == wide,
            r.distinct_set() == Set::<ValueModel>::empty(),
    {
        let r = StringDistinctCountAccumulator { wide, values: Vec::new() };
        proof {
            assert(r.distinct_set() =~= Set::<ValueModel>::empty());
        }
        r
    }

    /// Whether a payload with the same characters is already stored.
    fn contains_text(&self, t: &String) -> (r: bool)
        ensures
            r == exists|j: int| 0 <= j < self.values@.len() && #[trigger] self.values@[j]@ == t@,
    {
        let mut i: usize = 0;
        while i < self.values.len()
            invariant
                i <= self.values@.len(),
                forall|j: int| 0 <= j < i ==> #[trigger] self.values@[j]@ != t@,
            decreases self.values@.len() - i,
        {
            let cur: &String = &self.values[i];
            if cur.eq(t) {
                return true;
            }
            i = i + 1;
        }
        false
    }

    /// Inserts a payload; a duplicate insert is a no-op.
    fn insert_text(&mut self, t: String)
        requires
            old(self).wf(),
        ensures
            final(self).wf(),
            final(self).wide == old(self).wide,
            final(self).distinct_set() == old(self).distinct_set().insert(
                text_model(old(self).wide, t@),
            ),
    {
        let ghost m = text_model(old(self).wide, t@);
        if !self.contains_text(&t) {
            self.values.push(t);
            proof {
                let s = self.model_seq();
                let olds = old(self).model_seq();
                assert(s =~= olds.push(m));
                assert(s.subrange(0, olds.len() as int) =~= olds);
                lemma_to_set_step(s, olds.len() as int);
                assert(s.subrange(0, s.len() as int) =~= s);
                assert(self.distinct_set() =~= old(self).distinct_set().insert(m));
            }
        } else {
            proof {
                let j = choose|j: int|
                    0 <= j < old(self).values@.len() && #[trigger] old(self).values@[j]@ == t@;
                assert(old(self).model_seq()[j] == m);
                assert(old(self).distinct_set().contains(m));
                assert(self.distinct_set() =~= old(self).distinct_set().insert(m));
            }
        }
    }

    /// Consumes one column batch: every non-null payload of the first column
    /// is inserted. Empty input is a no-op; a column of any other declared
    /// type is rejected unchanged.
    pub fn update_batch(&mut self, values: &[Column]) -> (r: Result<(), AggError>)
        requires
            old(self).wf(),
            values@.len() > 0 ==> values@[0].wf(),
        ensures
            final(self).wf(),
            final(self).wide == old(self).wide,
            ({
                if values@.len() == 0 {
                    r is Ok && final(self).distinct_set() == old(self).distinct_set()
                } else if values@[0].dtype@ == text_type(old(self).wide) {
                    r is Ok && final(self).distinct_set() == old(self).distinct_set().union(
                        present_values(values@[0].cell_models()),
                    )
                } else {
                    r == Err::<(), AggError>(AggError::UnexpectedArrayType) && final(self).distinct_set() == old(self).distinct_set()
                }
            }),
    {
        if values.len() == 0 {
            return Ok(());
        }
        let c = &values[0];
        let expected = if self.wide {
            ColumnType::LargeUtf8
        } else {
            ColumnType::Utf8
        };
        if !(c.dtype == expected) {
            return Err(AggError::UnexpectedArrayType);
        }
        let ghost cm = c.cell_models();
        proof {
            assert(present_values(cm.subrange(0, 0)) =~= Set::<ValueModel>::empty());
            assert(old(self).distinct_set().union(present_values(cm.subrange(0, 0))) =~= old(
                self,
            ).distinct_set());
        }
        let mut i: usize = 0;
        while i < c.cells.len()
            invariant
                self.wf(),
                self.wide == old(self).wide,
                c.wf(),
                c.dtype@ == text_type(self.wide),
                cm == c.cell_models(),
                i <= c.cells@.len(),
                cm.len() == c.cells@.len(),
                self.distinct_set() == old(self).distinct_set().union(
                    present_values(cm.subrange(0, i as int)),
                ),
            decreases c.cells@.len() - i,
        {
            match &c.cells[i] {
                Some(s) => {
                    proof {
                        assert(c.cells@[i as int] matches Some(x) && x@ == s@);
                        assert(cell_matches(s@, c.dtype@));
                    }
                    let t = text_of_scalar(s);
                    self.insert_text(t);
                    proof {
                        assert(text_model(self.wide, t@) == s@);
                        assert(cm[i as int] == Some(s@));
                        crate::column::lemma_present_values_step(cm, i as int);
                        assert(self.distinct_set() =~= old(self).distinct_set().union(
                            present_values(cm.subrange(0, i + 1 as int)),
                        ));
                    }
                },
                None => {
                    proof {
                        assert(cm[i as int] is None);
                        crate::column::lemma_present_values_step(cm, i as int);
                    }
                },
            }
            i = i + 1;
        }
        proof {
            assert(cm.subrange(0, cm.len() as int) =~= cm);
        }
        Ok(())
    }

    /// Consumes the single state column of a merge step: every element of
    /// every present row is inserted.
    pub fn merge_batch(&mut self, states: &[ListColumn]) -> (r: Result<(), AggError>)
        requires
            old(self).wf(),
            states@.len() > 0 ==> states@[0].wf(),
        ensures
            final(self).wf(),
            final(self).wide == old(self).wide,
            ({
                if states@.len() == 0 {
                    r is Ok && final(self).distinct_set() == old(self).distinct_set()
                } else if states@.len() > 1 {
                    r == Err::<(), AggError>(AggError::MultipleStateArrays) && final(self).distinct_set() == old(self).distinct_set()
                } else if states@[0].element_type@ == text_type(old(self).wide) {
                    r is Ok && final(self).distinct_set() == old(self).distinct_set().union(
                        states@[0].merged_values(),
                    )
                } else {
                    r == Err::<(), AggError>(AggError::UnexpectedArrayType) && final(self).distinct_set() == old(self).distinct_set()
                }
            }),
    {
        if states.len() == 0 {
            return Ok(());
        }
        if states.len() > 1 {
            return Err(AggError::MultipleStateArrays);
        }
        let lc = &states[0];
        let expected = if self.wide {
            ColumnType::LargeUtf8
        } else {
            ColumnType::Utf8
        };
        if !(lc.element_type == expected) {
            return Err(AggError::UnexpectedArrayType);
        }
        let ghost rows = lc.rows@;
        proof {
            assert(crate::column::state_values(rows.subrange(0, 0)) =~= Set::<ValueModel>::empty());
            assert(old(self).distinct_set().union(crate::column::state_values(rows.subrange(0, 0)))
                =~= old(self).distinct_set());
        }
        let mut i: usize = 0;
        while i < lc.rows.len()
            invariant
                self.wf(),
                self.wide == old(self).wide,
                lc.wf(),
                lc.element_type@ == text_type(self.wide),
                rows == lc.rows@,
                i <= rows.len(),
                self.distinct_set() == old(self).distinct_set().union(
                    crate::column::state_values(rows.subrange(0, i as int)),
                ),
            decreases rows.len() - i,
        {
            let ghost set_before_row = self.distinct_set();
            match &lc.rows[i] {
                Some(lv) => {
                    proof {
                        assert(rows[i as int] matches Some(x) && x == *lv);
                        assert(lv.wf() && lv.element_type@ == lc.element_type@);
                    }
                    let vm = Ghost(lv.value_models());
                    proof {
                        assert(vm@.subrange(0, 0).to_set() =~= Set::<ValueModel>::empty());
                        assert(set_before_row.union(vm@.subrange(0, 0).to_set())
                            =~= set_before_row);
                    }
                    let mut k: usize = 0;
                    while k < lv.values.len()
                        invariant
                            self.wf(),
                            self.wide == old(self).wide,
                            lv.wf(),
                            lv.element_type@ == text_type(self.wide),
                            vm@ == lv.value_models(),
                            k <= lv.values@.len(),
                            vm@.len() == lv.values@.len(),
                            self.distinct_set() == set_before_row.union(
                                vm@.subrange(0, k as int).to_set(),
                            ),
                        decreases lv.values@.len() - k,
                    {
                        let s = &lv.values[k];
                        proof {
                            assert(cell_matches(lv.values@[k as int]@, lv.element_type@));
                        }
                        let t = text_of_scalar(s);
                        self.insert_text(t);
                        proof {
                            assert(text_model(self.wide, t@) == s@);
                            assert(vm@[k as int] == s@);
                            lemma_to_set_step(vm@, k as int);
                            assert(self.distinct_set() =~= set_before_row.union(
                                vm@.subrange(0, k + 1 as int).to_set(),
                            ));
                        }
                        k = k + 1;
                    }
                    proof {
                        assert(vm@.subrange(0, vm@.len() as int) =~= vm@);
                        assert(lv.value_set() == vm@.to_set());
                        crate::column::ListColumn::lemma_state_values_step(rows, i as int);
                        assert(self.distinct_set() =~= old(self).distinct_set().union(
                            crate::column::state_values(rows.subrange(0, i + 1 as int)),
                        ));
                    }
                },
                None => {
                    proof {
                        assert(rows[i as int] is None);
                        crate::column::ListColumn::lemma_state_values_step(rows, i as int);
                        assert(self.distinct_set() =~= old(self).distinct_set().union(
                            crate::column::state_values(rows.subrange(0, i + 1 as int)),
                        ));
                    }
                },
            }
            i = i + 1;
        }
        proof {
            assert(rows.subrange(0, rows.len() as int) =~= rows);
        }
        Ok(())
    }

    /// Materializes the distinct set as a single list value of the matching
    /// text type, in storage order, each payload exactly once.
    pub fn state(&self) -> (r: Result<Vec<ListValue>, AggError>)
        requires
            self.wf(),
        ensures
            r matches Ok(st) && st@.len() == 1 && st@[0].wf() && st@[0].element_type@ == text_type(
                self.wide,
            ) && st@[0].value_set() == self.distinct_set()
                && st@[0].value_models().no_duplicates(),
    {
        let element_type = if self.wide {
            ColumnType::LargeUtf8
        } else {
            ColumnType::Utf8
        };
        let mut scalars: Vec<Scalar> = Vec::new();
        let mut i: usize = 0;
        while i < self.values.len()
            invariant
                self.wf(),
                i <= self.values@.len(),
                scalars@.map_values(|s: Scalar| s@) == self.model_seq().subrange(0, i as int),
                scalars@.len() == i,
            decreases self.values@.len() - i,
        {
            let payload = self.values[i].clone();
            let sc = if self.wide {
                Scalar::LargeUtf8(payload)
            } else {
                Scalar::Utf8(payload)
            };
            scalars.push(sc);
            proof {
                assert(scalars@.map_values(|s: Scalar| s@) =~= self.model_seq().subrange(
                    0,
                    i + 1 as int,
                ));
            }
            i = i + 1;
        }
        proof {
            assert(self.model_seq().subrange(0, self.model_seq().len() as int)
                =~= self.model_seq());
        }
        let lv = ListValue { element_type, values: scalars };
        proof {
            assert(lv.value_models() == self.model_seq());
            assert forall|j: int| 0 <= j < lv.values@.len() implies cell_matches(
                #[trigger] lv.values@[j]@,
                lv.element_type@,
            ) by {
                assert(lv.value_models()[j] == self.model_seq()[j]);
            };
            self.lemma_models_no_dup();
        }
        Ok(vec![lv])
    }

    /// The distinct count, as a signed 64-bit integer scalar.
    pub fn evaluate(&self) -> (r: Result<Scalar, AggError>)
        requires
            self.wf(),
        ensures
            r matches Ok(s) && s is Int64 && (self.distinct_set().len() <= i64::MAX ==> s@
                == ValueModel::Int64(self.distinct_set().len() as int)),
    {
        proof {
            self.lemma_count();
        }
        Ok(Scalar::Int64(#[verifier::truncate] (self.values.len() as i64)))
    }

    /// The modeled footprint: the accumulator itself plus, per stored
    /// payload, one string header and the encoded bytes. This is the exact
    /// tier of the memory estimator: per-element heap cost varies, so every
    /// element is visited.
    pub open spec fn spec_size(&self) -> int {
        vstd::layout::size_of::<Self>() + text_footprint(self.values@)
    }

    /// Reports the modeled heap footprint, saturating at the machine limit.
    pub fn size(&self) -> (r: usize)
        ensures
            r as int == if self.spec_size() <= usize::MAX as int {
                self.spec_size()
            } else {
                usize::MAX as int
            },
    {
        let mut acc: usize = 0;
        let mut i: usize = 0;
        while i < self.values.len()
            invariant
                i <= self.values@.len(),
                acc as int == if text_footprint(self.values@.subrange(0, i as int))
                    <= usize::MAX as int {
                    text_footprint(self.values@.subrange(0, i as int))
                } else {
                    usize::MAX as int
                },
            decreases self.values@.len() - i,
        {
            proof {
                lemma_text_footprint_nonneg(self.values@.subrange(0, i as int));
                assert(self.values@.subrange(0, i + 1 as int).drop_last() =~= self.values@.subrange(
                    0,
                    i as int,
                ));
                assert(self.values@.subrange(0, i + 1 as int).last() == self.values@[i as int]);
            }
            acc = add_sat(acc, core::mem::size_of::<String>());
            acc = add_sat(acc, self.values[i].as_str().len());
            i = i + 1;
        }
        proof {
            assert(self.values@.subrange(0, self.values@.len() as int) =~= self.values@);
            lemma_text_footprint_nonneg(self.values@);
        }
        add_sat(core::mem::size_of::<Self>(), acc)
    }
}

/// A text footprint is never negative.
pub proof fn lemma_text_footprint_nonneg(ss: Seq<String>)
    ensures
        text_footprint(ss) >= 0,
    decreases ss.len(),
{
    if ss.len() > 0 {
        lemma_text_footprint_nonneg(ss.drop_last());
    }
}

} // verus!

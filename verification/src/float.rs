//! The floating-point distinct accumulator.
//!
//! Native floating-point equality is not reflexive (a NaN is unequal to
//! itself), so float values cannot be set elements as they stand. The
//! columns of this crate carry floating-point cells as raw bit patterns, and
//! [`Hashable`] adapts such a bit pattern into a set element whose equality
//! is bit-pattern equality: a total equivalence relation under which
//! bit-identical NaN payloads are equal and distinct payloads (including a
//! negative and a positive zero) are distinct values.

use vstd::prelude::*;

use crate::column::present_values;
use crate::column::Column;
use crate::column::ListColumn;
use crate::column::ListValue;
use crate::error::AggError;
use crate::native::NativeDistinctCountAccumulator;
use crate::native::NativeValue;
use crate::scalar::Scalar;
use crate::scalar::ValueModel;
use crate::types::kind_default_model;
use crate::types::kind_of;
use crate::types::NativeKind;

verus! {

/// Wraps a floating-point bit pattern so that equality is equality of the
/// bits.
#[derive(Clone, Copy, Debug)]
pub struct Hashable<T>(pub T);

impl NativeValue for Hashable<u16> {
    open spec fn as_int(self) -> int {
        self.0 as int
    }

    open spec fn handles(k: NativeKind) -> bool {
        k == NativeKind::Float16
    }

    fn eq_value(self, other: Self) -> (r: bool) {
        self.0 == other.0
    }

    fn of_scalar(s: &Scalar) -> (v: Self) {
        match s {
            Scalar::Float16(b) => Hashable(*b),
            _ => unreached(),
        }
    }

    fn to_scalar(self, k: NativeKind) -> (s: Scalar) {
        match k {
            NativeKind::Float16 => Scalar::Float16(self.0),
            _ => unreached(),
        }
    }
}

impl NativeValue for Hashable<u32> {
    open spec fn as_int(self) -> int {
        self.0 as int
    }

    open spec fn handles(k: NativeKind) -> bool {
        k == NativeKind::Float32
    }

    fn eq_value(self, other: Self) -> (r: bool) {
        self.0 == other.0
    }

    fn of_scalar(s: &Scalar) -> (v: Self) {
        match s {
            Scalar::Float32(b) => Hashable(*b),
            _ => unreached(),
        }
    }

    fn to_scalar(self, k: NativeKind) -> (s: Scalar) {
        match k {
            NativeKind::Float32 => Scalar::Float32(self.0),
            _ => unreached(),
        }
    }
}

impl NativeValue for Hashable<u64> {
    open spec fn as_int(self) -> int {
        self.0 as int
    }

    open spec fn handles(k: NativeKind) -> bool {
        k == NativeKind::Float64
    }

    fn eq_value(self, other: Self) -> (r: bool) {
        self.0 == other.0
    }

    fn of_scalar(s: &Scalar) -> (v: Self) {
        match s {
            Scalar::Float64(b) => Hashable(*b),
            _ => unreached(),
        }
    }

    fn to_scalar(self, k: NativeKind) -> (s: Scalar) {
        match k {
            NativeKind::Float64 => Scalar::Float64(self.0),
            _ => unreached(),
        }
    }
}

/// Distinct counting over a floating-point column: a native fixed-width set
/// over [`Hashable`] bit patterns.
#[derive(Debug)]
pub struct FloatDistinctCountAccumulator<T> where Hashable<T>: NativeValue {
    pub inner: NativeDistinctCountAccumulator<Hashable<T>>,
}

impl<T> FloatDistinctCountAccumulator<T> where Hashable<T>: NativeValue {
    /// The backing set is well-formed.
    pub open spec fn wf(&self) -> bool {
        self.inner.wf()
    }

    /// The physical kind this accumulator consumes.
    pub open spec fn spec_kind(&self) -> NativeKind {
        self.inner.kind
    }

    /// The distinct set of bit patterns observed so far.
    pub open spec fn distinct_set(&self) -> Set<ValueModel> {
        self.inner.distinct_set()
    }

    /// The cardinality of the distinct set is the storage length.
    pub proof fn lemma_count(&self)
        requires
            self.wf(),
        ensures
            self.distinct_set().finite(),
            self.distinct_set().len() == self.inner.values@.len(),
    {
        self.inner.lemma_count();
    }

    /// A fresh, empty accumulator for a handled floating-point kind.
    pub fn new(kind: NativeKind) -> (r: Self)
        requires
            <Hashable<T> as NativeValue>::handles(kind),
        ensures
            r.wf(),
            r.spec_kind() == kind,
            r.distinct_set() == Set::<ValueModel>::empty(),
    {
        FloatDistinctCountAccumulator { inner: NativeDistinctCountAccumulator::new(kind) }
    }

    /// Consumes one column batch: every non-null bit pattern of the first
    /// column is inserted.
    pub fn update_batch(&mut self, values: &[Column]) -> (r: Result<(), AggError>)
        requires
            old(self).wf(),
            values@.len() > 0 ==> values@[0].wf(),
        ensures
            final(self).wf(),
            final(self).spec_kind() == old(self).spec_kind(),
            ({
                if values@.len() == 0 {
                    r is Ok && final(self).distinct_set() == old(self).distinct_set()
                } else if kind_of(values@[0].dtype@) == Some(old(self).spec_kind()) {
                    r is Ok && final(self).distinct_set() == old(self).distinct_set().union(
                        present_values(values@[0].cell_models()),
                    )
                } else {
                    r == Err::<(), AggError>(AggError::UnexpectedArrayType) && final(self).distinct_set() == old(self).distinct_set()
                }
            }),
    {
        self.inner.update_batch(values)
    }

    /// Consumes the single state column of a merge step.
    pub fn merge_batch(&mut self, states: &[ListColumn]) -> (r: Result<(), AggError>)
        requires
            old(self).wf(),
            states@.len() > 0 ==> states@[0].wf(),
        ensures
            final(self).wf(),
            final(self).spec_kind() == old(self).spec_kind(),
            ({
                if states@.len() == 0 {
                    r is Ok && final(self).distinct_set() == old(self).distinct_set()
                } else if states@.len() > 1 {
                    r == Err::<(), AggError>(AggError::MultipleStateArrays) && final(self).distinct_set() == old(self).distinct_set()
                } else if kind_of(states@[0].element_type@) == Some(old(self).spec_kind()) {
                    r is Ok && final(self).distinct_set() == old(self).distinct_set().union(
                        states@[0].merged_values(),
                    )
                } else {
                    r == Err::<(), AggError>(AggError::UnexpectedArrayType) && final(self).distinct_set() == old(self).distinct_set()
                }
            }),
    {
        self.inner.merge_batch(states)
    }

    /// Materializes the distinct set as a single list value of the
    /// floating-point type.
    pub fn state(&self) -> (r: Result<Vec<ListValue>, AggError>)
        requires
            self.wf(),
        ensures
            r matches Ok(st) && st@.len() == 1 && st@[0].wf() && st@[0].element_type@
                == kind_default_model(self.spec_kind()) && st@[0].value_set() == self.distinct_set()
                && st@[0].value_models().no_duplicates(),
    {
        self.inner.state()
    }

    /// The distinct count, as a signed 64-bit integer scalar.
    pub fn evaluate(&self) -> (r: Result<Scalar, AggError>)
        requires
            self.wf(),
        ensures
            r matches Ok(s) && s is Int64 && (self.distinct_set().len() <= i64::MAX ==> s@
                == ValueModel::Int64(self.distinct_set().len() as int)),
    {
        self.inner.evaluate()
    }

    /// The modeled footprint of the backing hash table.
    pub open spec fn spec_size(&self) -> int {
        self.inner.spec_size()
    }

    /// Reports the modeled heap footprint, saturating at the machine limit.
    pub fn size(&self) -> (r: usize)
        ensures
            r as int == if self.spec_size() <= usize::MAX as int {
                self.spec_size()
            } else {
                usize::MAX as int
            },
    {
        self.inner.size()
    }
}

} // verus!

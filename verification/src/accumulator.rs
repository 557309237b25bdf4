//! The accumulator produced by dispatch: one of the four variants behind a
//! single closed type, sharing the capability set {update, merge, state,
//! evaluate, size}.
//!
//! Every variant's state is modeled by the same mathematical object, the set
//! of distinct observed values, so the capability contracts here are uniform
//! across variants.

use vstd::prelude::*;

use crate::column::present_values;
use crate::column::Column;
use crate::column::ListColumn;
use crate::column::ListValue;
use crate::error::AggError;
use crate::float::FloatDistinctCountAccumulator;
use crate::generic::DistinctCountAccumulator;
use crate::native::NativeDistinctCountAccumulator;
use crate::scalar::Scalar;
use crate::scalar::ValueModel;
use crate::scalar::I256;
use crate::strings::text_type;
use crate::strings::StringDistinctCountAccumulator;
use crate::types::kind_default_model;
use crate::types::kind_is_float;
use crate::types::kind_of;
use crate::types::NativeKind;
use crate::types::TypeModel;

verus! {

/// Which accumulator variant serves a declared type, with the variant's
/// parameter: the physical kind for the fixed-width variants, the offset
/// width for text, and the declared type itself for the generic fallback.
pub enum VariantModel {
    Native(NativeKind),
    Float(NativeKind),
    Text(bool),
    Generic(TypeModel),
}

/// The dispatch table: a total function from declared type to variant.
/// Fixed-width kinds take the native variant, except the floating-point
/// kinds, which take the bit-pattern variant; the two text types take the
/// text variant at the matching offset width; everything else falls back to
/// the generic variant.
pub open spec fn dispatch(t: TypeModel) -> VariantModel {
    match kind_of(t) {
        Some(k) => if kind_is_float(k) {
            VariantModel::Float(k)
        } else {
            VariantModel::Native(k)
        },
        None => if t is Utf8 {
            VariantModel::Text(false)
        } else if t is LargeUtf8 {
            VariantModel::Text(true)
        } else {
            VariantModel::Generic(t)
        },
    }
}

/// A distinct-count accumulator of one of the four variants.
#[derive(Debug)]
pub enum DistinctAccumulator {
    NativeInt8(NativeDistinctCountAccumulator<i8>),
    NativeInt16(NativeDistinctCountAccumulator<i16>),
    NativeInt32(NativeDistinctCountAccumulator<i32>),
    NativeInt64(NativeDistinctCountAccumulator<i64>),
    NativeUInt8(NativeDistinctCountAccumulator<u8>),
    NativeUInt16(NativeDistinctCountAccumulator<u16>),
    NativeUInt32(NativeDistinctCountAccumulator<u32>),
    NativeUInt64(NativeDistinctCountAccumulator<u64>),
    NativeDecimal128(NativeDistinctCountAccumulator<i128>),
    NativeDecimal256(NativeDistinctCountAccumulator<I256>),
    Float16(FloatDistinctCountAccumulator<u16>),
    Float32(FloatDistinctCountAccumulator<u32>),
    Float64(FloatDistinctCountAccumulator<u64>),
    Text(StringDistinctCountAccumulator),
    Generic(DistinctCountAccumulator),
}

impl DistinctAccumulator {
    /// The variant this accumulator implements, with its parameter.
    pub open spec fn variant_model(&self) -> VariantModel {
        match self {
            DistinctAccumulator::NativeInt8(a) => VariantModel::Native(a.kind),
            DistinctAccumulator::NativeInt16(a) => VariantModel::Native(a.kind),
            DistinctAccumulator::NativeInt32(a) => VariantModel::Native(a.kind),
            DistinctAccumulator::NativeInt64(a) => VariantModel::Native(a.kind),
            DistinctAccumulator::NativeUInt8(a) => VariantModel::Native(a.kind),
            DistinctAccumulator::NativeUInt16(a) => VariantModel::Native(a.kind),
            DistinctAccumulator::NativeUInt32(a) => VariantModel::Native(a.kind),
            DistinctAccumulator::NativeUInt64(a) => VariantModel::Native(a.kind),
            DistinctAccumulator::NativeDecimal128(a) => VariantModel::Native(a.kind),
            DistinctAccumulator::NativeDecimal256(a) => VariantModel::Native(a.kind),
            DistinctAccumulator::Float16(a) => VariantModel::Float(a.spec_kind()),
            DistinctAccumulator::Float32(a) => VariantModel::Float(a.spec_kind()),
            DistinctAccumulator::Float64(a) => VariantModel::Float(a.spec_kind()),
            DistinctAccumulator::Text(a) => VariantModel::Text(a.wide),
            DistinctAccumulator::Generic(a) => VariantModel::Generic(a.state_data_type@),
        }
    }

    /// The backing variant is well-formed.
    pub open spec fn wf(&self) -> bool {
        match self {
            DistinctAccumulator::NativeInt8(a) => a.wf(),
            DistinctAccumulator::NativeInt16(a) => a.wf(),
            DistinctAccumulator::NativeInt32(a) => a.wf(),
            DistinctAccumulator::NativeInt64(a) => a.wf(),
            DistinctAccumulator::NativeUInt8(a) => a.wf(),
            DistinctAccumulator::NativeUInt16(a) => a.wf(),
            DistinctAccumulator::NativeUInt32(a) => a.wf(),
            DistinctAccumulator::NativeUInt64(a) => a.wf(),
            DistinctAccumulator::NativeDecimal128(a) => a.wf(),
            DistinctAccumulator::NativeDecimal256(a) => a.wf(),
            DistinctAccumulator::Float16(a) => a.wf(),
            DistinctAccumulator::Float32(a) => a.wf(),
            DistinctAccumulator::Float64(a) => a.wf(),
            DistinctAccumulator::Text(a) => a.wf(),
            DistinctAccumulator::Generic(a) => a.wf(),
        }
    }

    /// The distinct set observed so far.
    pub open spec fn distinct_set(&self) -> Set<ValueModel> {
        match self {
            DistinctAccumulator::NativeInt8(a) => a.distinct_set(),
            DistinctAccumulator::NativeInt16(a) => a.distinct_set(),
            DistinctAccumulator::NativeInt32(a) => a.distinct_set(),
            DistinctAccumulator::NativeInt64(a) => a.distinct_set(),
            DistinctAccumulator::NativeUInt8(a) => a.distinct_set(),
            DistinctAccumulator::NativeUInt16(a) => a.distinct_set(),
            DistinctAccumulator::NativeUInt32(a) => a.distinct_set(),
            DistinctAccumulator::NativeUInt64(a) => a.distinct_set(),
            DistinctAccumulator::NativeDecimal128(a) => a.distinct_set(),
            DistinctAccumulator::NativeDecimal256(a) => a.distinct_set(),
            DistinctAccumulator::Float16(a) => a.distinct_set(),
            DistinctAccumulator::Float32(a) => a.distinct_set(),
            DistinctAccumulator::Float64(a) => a.distinct_set(),
            DistinctAccumulator::Text(a) => a.distinct_set(),
            DistinctAccumulator::Generic(a) => a.distinct_set(),
        }
    }

    /// The declared types whose columns an update accepts: the variant's own
    /// types, and, for the generic fallback, also the null type, whose
    /// batches carry nothing and are skipped.
    pub open spec fn accepts_update(&self, t: TypeModel) -> bool {
        match self.variant_model() {
            VariantModel::Native(k) => kind_of(t) == Some(k),
            VariantModel::Float(k) => kind_of(t) == Some(k),
            VariantModel::Text(wide) => t == text_type(wide),
            VariantModel::Generic(dt) => t is Null || t == dt,
        }
    }

    /// The element types a merge accepts.
    pub open spec fn accepts_merge(&self, t: TypeModel) -> bool {
        match self.variant_model() {
            VariantModel::Native(k) => kind_of(t) == Some(k),
            VariantModel::Float(k) => kind_of(t) == Some(k),
            VariantModel::Text(wide) => t == text_type(wide),
            VariantModel::Generic(dt) => t == dt,
        }
    }

    /// The element type under which a state is materialized.
    pub open spec fn state_element_type(&self) -> TypeModel {
        match self.variant_model() {
            VariantModel::Native(k) => kind_default_model(k),
            VariantModel::Float(k) => kind_default_model(k),
            VariantModel::Text(wide) => text_type(wide),
            VariantModel::Generic(dt) => dt,
        }
    }

    /// Consumes one column batch: every non-null value of the first column
    /// joins the distinct set. An empty batch is a no-op, as is a batch all
    /// of whose positions are null; a column the variant cannot reinterpret
    /// is rejected unchanged.
    pub fn update_batch(&mut self, values: &[Column]) -> (r: Result<(), AggError>)
        requires
            old(self).wf(),
            values@.len() > 0 ==> values@[0].wf(),
        ensures
            final(self).wf(),
            final(self).variant_model() == old(self).variant_model(),
            ({
                if values@.len() == 0 {
                    r is Ok && final(self).distinct_set() == old(self).distinct_set()
                } else if old(self).accepts_update(values@[0].dtype@) {
                    r is Ok && final(self).distinct_set() == old(self).distinct_set().union(
                        present_values(values@[0].cell_models()),
                    )
                } else {
                    r == Err::<(), AggError>(AggError::UnexpectedArrayType) && final(self).distinct_set() == old(self).distinct_set()
                }
            }),
    {
        let r = match self {
            DistinctAccumulator::NativeInt8(a) => a.update_batch(values),
            DistinctAccumulator::NativeInt16(a) => a.update_batch(values),
            DistinctAccumulator::NativeInt32(a) => a.update_batch(values),
            DistinctAccumulator::NativeInt64(a) => a.update_batch(values),
            DistinctAccumulator::NativeUInt8(a) => a.update_batch(values),
            DistinctAccumulator::NativeUInt16(a) => a.update_batch(values),
            DistinctAccumulator::NativeUInt32(a) => a.update_batch(values),
            DistinctAccumulator::NativeUInt64(a) => a.update_batch(values),
            DistinctAccumulator::NativeDecimal128(a) => a.update_batch(values),
            DistinctAccumulator::NativeDecimal256(a) => a.update_batch(values),
            DistinctAccumulator::Float16(a) => a.update_batch(values),
            DistinctAccumulator::Float32(a) => a.update_batch(values),
            DistinctAccumulator::Float64(a) => a.update_batch(values),
            DistinctAccumulator::Text(a) => a.update_batch(values),
            DistinctAccumulator::Generic(a) => a.update_batch(values),
        };
        proof {
            if values@.len() > 0 && values@[0].dtype@ is Null && (*old(self)) is Generic {
                let c = values@[0];
                assert forall|j: int| 0 <= j < c.cell_models().len() implies c.cell_models()[j]
                    is None by {
                    assert(c.cells@[j] matches Some(s) ==> crate::scalar::cell_matches(
                        s@,
                        c.dtype@,
                    ));
                };
                crate::column::lemma_present_values_empty(c.cell_models());
                assert(old(self).distinct_set().union(present_values(c.cell_models())) =~= old(
                    self,
                ).distinct_set());
            }
        }
        r
    }

    /// Consumes the single state column of a merge step: every element of
    /// every present row joins the distinct set, the same set union as an
    /// update. An empty slice is a no-op; more than one state column breaks
    /// the transfer protocol; a state column the variant cannot reinterpret
    /// is rejected unchanged.
    pub fn merge_batch(&mut self, states: &[ListColumn]) -> (r: Result<(), AggError>)
        requires
            old(self).wf(),
            states@.len() > 0 ==> states@[0].wf(),
        ensures
            final(self).wf(),
            final(self).variant_model() == old(self).variant_model(),
            ({
                if states@.len() == 0 {
                    r is Ok && final(self).distinct_set() == old(self).distinct_set()
                } else if states@.len() > 1 {
                    r == Err::<(), AggError>(AggError::MultipleStateArrays) && final(self).distinct_set() == old(self).distinct_set()
                } else if old(self).accepts_merge(states@[0].element_type@) {
                    r is Ok && final(self).distinct_set() == old(self).distinct_set().union(
                        states@[0].merged_values(),
                    )
                } else {
                    r == Err::<(), AggError>(AggError::UnexpectedArrayType) && final(self).distinct_set() == old(self).distinct_set()
                }
            }),
    {
        match self {
            DistinctAccumulator::NativeInt8(a) => a.merge_batch(states),
            DistinctAccumulator::NativeInt16(a) => a.merge_batch(states),
            DistinctAccumulator::NativeInt32(a) => a.merge_batch(states),
            DistinctAccumulator::NativeInt64(a) => a.merge_batch(states),
            DistinctAccumulator::NativeUInt8(a) => a.merge_batch(states),
            DistinctAccumulator::NativeUInt16(a) => a.merge_batch(states),
            DistinctAccumulator::NativeUInt32(a) => a.merge_batch(states),
            DistinctAccumulator::NativeUInt64(a) => a.merge_batch(states),
            DistinctAccumulator::NativeDecimal128(a) => a.merge_batch(states),
            DistinctAccumulator::NativeDecimal256(a) => a.merge_batch(states),
            DistinctAccumulator::Float16(a) => a.merge_batch(states),
            DistinctAccumulator::Float32(a) => a.merge_batch(states),
            DistinctAccumulator::Float64(a) => a.merge_batch(states),
            DistinctAccumulator::Text(a) => a.merge_batch(states),
            DistinctAccumulator::Generic(a) => a.merge_batch(states),
        }
    }

    /// Materializes the distinct set as a single list value of the variant's
    /// state element type, every element exactly once, in no promised order.
    pub fn state(&self) -> (r: Result<Vec<ListValue>, AggError>)
        requires
            self.wf(),
        ensures
            r matches Ok(st) && st@.len() == 1 && st@[0].wf() && st@[0].element_type@
                == self.state_element_type() && st@[0].value_set() == self.distinct_set()
                && st@[0].value_models().no_duplicates(),
    {
        match self {
            DistinctAccumulator::NativeInt8(a) => a.state(),
            DistinctAccumulator::NativeInt16(a) => a.state(),
            DistinctAccumulator::NativeInt32(a) => a.state(),
            DistinctAccumulator::NativeInt64(a) => a.state(),
            DistinctAccumulator::NativeUInt8(a) => a.state(),
            DistinctAccumulator::NativeUInt16(a) => a.state(),
            DistinctAccumulator::NativeUInt32(a) => a.state(),
            DistinctAccumulator::NativeUInt64(a) => a.state(),
            DistinctAccumulator::NativeDecimal128(a) => a.state(),
            DistinctAccumulator::NativeDecimal256(a) => a.state(),
            DistinctAccumulator::Float16(a) => a.state(),
            DistinctAccumulator::Float32(a) => a.state(),
            DistinctAccumulator::Float64(a) => a.state(),
            DistinctAccumulator::Text(a) => a.state(),
            DistinctAccumulator::Generic(a) => a.state(),
        }
    }

    /// The distinct count: the cardinality of the distinct set, as a signed
    /// 64-bit integer scalar. Read-only and idempotent.
    pub fn evaluate(&self) -> (r: Result<Scalar, AggError>)
        requires
            self.wf(),
        ensures
            r matches Ok(s) && s is Int64 && (self.distinct_set().len() <= i64::MAX ==> s@
                == ValueModel::Int64(self.distinct_set().len() as int)),
    {
        match self {
            DistinctAccumulator::NativeInt8(a) => a.evaluate(),
            DistinctAccumulator::NativeInt16(a) => a.evaluate(),
            DistinctAccumulator::NativeInt32(a) => a.evaluate(),
            DistinctAccumulator::NativeInt64(a) => a.evaluate(),
            DistinctAccumulator::NativeUInt8(a) => a.evaluate(),
            DistinctAccumulator::NativeUInt16(a) => a.evaluate(),
            DistinctAccumulator::NativeUInt32(a) => a.evaluate(),
            DistinctAccumulator::NativeUInt64(a) => a.evaluate(),
            DistinctAccumulator::NativeDecimal128(a) => a.evaluate(),
            DistinctAccumulator::NativeDecimal256(a) => a.evaluate(),
            DistinctAccumulator::Float16(a) => a.evaluate(),
            DistinctAccumulator::Float32(a) => a.evaluate(),
            DistinctAccumulator::Float64(a) => a.evaluate(),
            DistinctAccumulator::Text(a) => a.evaluate(),
            DistinctAccumulator::Generic(a) => a.evaluate(),
        }
    }

    /// Whether the reported footprint is a correct report for this variant:
    /// the specialized variants report their hash-table model exactly, the
    /// text variant its exact per-element model, and the generic variant its
    /// tier's model at some allocated capacity.
    pub open spec fn size_report_ok(&self, r: usize) -> bool {
        match self {
            DistinctAccumulator::NativeInt8(a) => r as int == clip_usize(a.spec_size()),
            DistinctAccumulator::NativeInt16(a) => r as int == clip_usize(a.spec_size()),
            DistinctAccumulator::NativeInt32(a) => r as int == clip_usize(a.spec_size()),
            DistinctAccumulator::NativeInt64(a) => r as int == clip_usize(a.spec_size()),
            DistinctAccumulator::NativeUInt8(a) => r as int == clip_usize(a.spec_size()),
            DistinctAccumulator::NativeUInt16(a) => r as int == clip_usize(a.spec_size()),
            DistinctAccumulator::NativeUInt32(a) => r as int == clip_usize(a.spec_size()),
            DistinctAccumulator::NativeUInt64(a) => r as int == clip_usize(a.spec_size()),
            DistinctAccumulator::NativeDecimal128(a) => r as int == clip_usize(a.spec_size()),
            DistinctAccumulator::NativeDecimal256(a) => r as int == clip_usize(a.spec_size()),
            DistinctAccumulator::Float16(a) => r as int == clip_usize(a.spec_size()),
            DistinctAccumulator::Float32(a) => r as int == clip_usize(a.spec_size()),
            DistinctAccumulator::Float64(a) => r as int == clip_usize(a.spec_size()),
            DistinctAccumulator::Text(a) => r as int == clip_usize(a.spec_size()),
            DistinctAccumulator::Generic(a) => exists|cap: int|
                a.values@.len() <= cap && r as int == clip_usize(#[trigger] a.size_model(cap)),
        }
    }

    /// Reports the approximate current heap footprint, for the engine's
    /// memory budgeting.
    pub fn size(&self) -> (r: usize)
        ensures
            self.size_report_ok(r),
    {
        match self {
            DistinctAccumulator::NativeInt8(a) => a.size(),
            DistinctAccumulator::NativeInt16(a) => a.size(),
            DistinctAccumulator::NativeInt32(a) => a.size(),
            DistinctAccumulator::NativeInt64(a) => a.size(),
            DistinctAccumulator::NativeUInt8(a) => a.size(),
            DistinctAccumulator::NativeUInt16(a) => a.size(),
            DistinctAccumulator::NativeUInt32(a) => a.size(),
            DistinctAccumulator::NativeUInt64(a) => a.size(),
            DistinctAccumulator::NativeDecimal128(a) => a.size(),
            DistinctAccumulator::NativeDecimal256(a) => a.size(),
            DistinctAccumulator::Float16(a) => a.size(),
            DistinctAccumulator::Float32(a) => a.size(),
            DistinctAccumulator::Float64(a) => a.size(),
            DistinctAccumulator::Text(a) => a.size(),
            DistinctAccumulator::Generic(a) => a.size(),
        }
    }
}

/// An integer clipped to the machine's pointer-sized range.
pub open spec fn clip_usize(v: int) -> int {
    if v <= usize::MAX as int {
        v
    } else {
        usize::MAX as int
    }
}

} // verus!

//! The aggregate expression descriptor for a distinct count.
//!
//! A [`DistinctCount`] is created once per query-plan aggregate node. Its
//! declared input type alone decides, at accumulator-creation time, which
//! accumulator variant is produced; the child expression is an opaque
//! evaluable capability that this core only hands back to the executor.

use vstd::prelude::*;

use crate::accumulator::dispatch;
use crate::accumulator::DistinctAccumulator;
use crate::error::AggError;
use crate::float::FloatDistinctCountAccumulator;
use crate::generic::DistinctCountAccumulator;
use crate::native::NativeDistinctCountAccumulator;
use crate::scalar::ValueModel;
use crate::strings::StringDistinctCountAccumulator;
use crate::types::ColumnType;
use crate::types::Field;
use crate::types::ListField;
use crate::types::NativeKind;
use crate::types::TimeUnit;
use crate::types::TypeModel;

verus! {

/// A handle to an evaluable expression owned by the planning layer. The core
/// stores and returns it, and compares descriptors by it, but never looks
/// inside.
#[derive(Clone, Copy, PartialEq, Eq, Structural, Debug)]
pub struct ExprRef {
    pub id: u64,
}

/// Relies on String::push_str: appends the slice's characters in order.
#[verifier::external_body]
fn push_str(s: &mut String, suffix: &str)
    ensures
        final(s)@ == old(s)@ + suffix@,
{
    s.push_str(suffix)
}

/// The canonical name of a state field: the aggregate's own display name
/// with the state's role appended in brackets.
pub fn format_state_name(name: &str, state_name: &str) -> (r: String)
    ensures
        r@ == name@ + "["@ + state_name@ + "]"@,
{
    let mut s = name.to_owned();
    push_str(&mut s, "[");
    push_str(&mut s, state_name);
    push_str(&mut s, "]");
    s
}

/// An expression for a distinct-count aggregation.
#[derive(Debug)]
pub struct DistinctCount {
    /// Display name of the aggregated column.
    pub name: String,
    /// The declared type that holds the state for each input; it alone
    /// drives accumulator dispatch.
    pub state_data_type: ColumnType,
    /// The child expression evaluated per row.
    pub expr: ExprRef,
}

impl DistinctCount {
    /// Creates a new distinct-count aggregate expression.
    pub fn new(input_data_type: ColumnType, expr: ExprRef, name: String) -> (r: Self)
        ensures
            r.name@ == name@,
            r.state_data_type@ == input_data_type@,
            r.expr == expr,
    {
        DistinctCount { name, state_data_type: input_data_type, expr }
    }

    /// The output field: a nullable signed 64-bit count under the display
    /// name.
    pub fn field(&self) -> (r: Result<Field, AggError>)
        ensures
            r matches Ok(f) && f@.name == self.name@ && f@.dtype == TypeModel::Int64 && f@.nullable
                == true,
    {
        Ok(Field { name: self.name.clone(), dtype: ColumnType::Int64, nullable: true })
    }

    /// The single state-transfer field: a non-nullable list of the declared
    /// input type, under the canonical state name.
    pub fn state_fields(&self) -> (r: Result<Vec<ListField>, AggError>)
        ensures
            r matches Ok(v) && v@.len() == 1 && ({
                let f = v@[0]@;
                &&& f.name == self.name@ + "["@ + "count distinct"@ + "]"@
                &&& f.item.name == "item"@
                &&& f.item.dtype == self.state_data_type@
                &&& f.item.nullable == true
                &&& f.nullable == false
            }),
    {
        let item = Field {
            name: "item".to_owned(),
            dtype: self.state_data_type.duplicate(),
            nullable: true,
        };
        let lf = ListField {
            name: format_state_name(self.name.as_str(), "count distinct"),
            item,
            nullable: false,
        };
        Ok(vec![lf])
    }

    /// The child expressions the executor evaluates per batch.
    pub fn expressions(&self) -> (r: Vec<ExprRef>)
        ensures
            r@.len() == 1 && r@[0] == self.expr,
    {
        vec![self.expr]
    }

    /// The display name.
    pub fn name(&self) -> (r: &str)
        ensures
            r@ == self.name@,
    {
        self.name.as_str()
    }

    /// Structural equality of descriptors: same display name, same declared
    /// type, same child expression. Descriptors of different aggregate
    /// shapes are never equal.
    pub fn eq(&self, other: &DistinctCount) -> (r: bool)
        ensures
            r == (self.name@ == other.name@ && self.state_data_type@ == other.state_data_type@
                && self.expr == other.expr),
    {
        self.name.eq(&other.name) && self.state_data_type == other.state_data_type && self.expr.id
            == other.expr.id
    }

    /// Produces a fresh, empty accumulator of the variant the dispatch table
    /// assigns to the declared input type. Succeeds for every declared type:
    /// the generic fallback arm guarantees totality.
    pub fn create_accumulator(&self) -> (r: Result<DistinctAccumulator, AggError>)
        ensures
            r matches Ok(acc) && acc.wf() && acc.distinct_set() == Set::<ValueModel>::empty()
                && acc.variant_model() == dispatch(self.state_data_type@),
    {
        match &self.state_data_type {
            ColumnType::Int8 => Ok(
                DistinctAccumulator::NativeInt8(
                    NativeDistinctCountAccumulator::new(NativeKind::Int8),
                ),
            ),
            ColumnType::Int16 => Ok(
                DistinctAccumulator::NativeInt16(
                    NativeDistinctCountAccumulator::new(NativeKind::Int16),
                ),
            ),
            ColumnType::Int32 => Ok(
                DistinctAccumulator::NativeInt32(
                    NativeDistinctCountAccumulator::new(NativeKind::Int32),
                ),
            ),
            ColumnType::Int64 => Ok(
                DistinctAccumulator::NativeInt64(
                    NativeDistinctCountAccumulator::new(NativeKind::Int64),
                ),
            ),
            ColumnType::UInt8 => Ok(
                DistinctAccumulator::NativeUInt8(
                    NativeDistinctCountAccumulator::new(NativeKind::UInt8),
                ),
            ),
            ColumnType::UInt16 => Ok(
                DistinctAccumulator::NativeUInt16(
                    NativeDistinctCountAccumulator::new(NativeKind::UInt16),
                ),
            ),
            ColumnType::UInt32 => Ok(
                DistinctAccumulator::NativeUInt32(
                    NativeDistinctCountAccumulator::new(NativeKind::UInt32),
                ),
            ),
            ColumnType::UInt64 => Ok(
                DistinctAccumulator::NativeUInt64(
                    NativeDistinctCountAccumulator::new(NativeKind::UInt64),
                ),
            ),
            ColumnType::Decimal128(_, _) => Ok(
                DistinctAccumulator::NativeDecimal128(
                    NativeDistinctCountAccumulator::new(NativeKind::Decimal128),
                ),
            ),
            ColumnType::Decimal256(_, _) => Ok(
                DistinctAccumulator::NativeDecimal256(
                    NativeDistinctCountAccumulator::new(NativeKind::Decimal256),
                ),
            ),
            ColumnType::Date32 => Ok(
                DistinctAccumulator::NativeInt32(
                    NativeDistinctCountAccumulator::new(NativeKind::Date32),
                ),
            ),
            ColumnType::Date64 => Ok(
                DistinctAccumulator::NativeInt64(
                    NativeDistinctCountAccumulator::new(NativeKind::Date64),
                ),
            ),
            ColumnType::Time32(TimeUnit::Millisecond) => Ok(
                DistinctAccumulator::NativeInt32(
                    NativeDistinctCountAccumulator::new(NativeKind::Time32Millisecond),
                ),
            ),
            ColumnType::Time32(TimeUnit::Second) => Ok(
                DistinctAccumulator::NativeInt32(
                    NativeDistinctCountAccumulator::new(NativeKind::Time32Second),
                ),
            ),
            ColumnType::Time64(TimeUnit::Microsecond) => Ok(
                DistinctAccumulator::NativeInt64(
                    NativeDistinctCountAccumulator::new(NativeKind::Time64Microsecond),
                ),
            ),
            ColumnType::Time64(TimeUnit::Nanosecond) => Ok(
                DistinctAccumulator::NativeInt64(
                    NativeDistinctCountAccumulator::new(NativeKind::Time64Nanosecond),
                ),
            ),
            ColumnType::Timestamp(TimeUnit::Microsecond, _) => Ok(
                DistinctAccumulator::NativeInt64(
                    NativeDistinctCountAccumulator::new(NativeKind::TimestampMicrosecond),
                ),
            ),
            ColumnType::Timestamp(TimeUnit::Millisecond, _) => Ok(
                DistinctAccumulator::NativeInt64(
                    NativeDistinctCountAccumulator::new(NativeKind::TimestampMillisecond),
                ),
            ),
            ColumnType::Timestamp(TimeUnit::Nanosecond, _) => Ok(
                DistinctAccumulator::NativeInt64(
                    NativeDistinctCountAccumulator::new(NativeKind::TimestampNanosecond),
                ),
            ),
            ColumnType::Timestamp(TimeUnit::Second, _) => Ok(
                DistinctAccumulator::NativeInt64(
                    NativeDistinctCountAccumulator::new(NativeKind::TimestampSecond),
                ),
            ),
            ColumnType::Float16 => Ok(
                DistinctAccumulator::Float16(
                    FloatDistinctCountAccumulator::new(NativeKind::Float16),
                ),
            ),
            ColumnType::Float32 => Ok(
                DistinctAccumulator::Float32(
                    FloatDistinctCountAccumulator::new(NativeKind::Float32),
                ),
            ),
            ColumnType::Float64 => Ok(
                DistinctAccumulator::Float64(
                    FloatDistinctCountAccumulator::new(NativeKind::Float64),
                ),
            ),
            ColumnType::Utf8 => Ok(
                DistinctAccumulator::Text(StringDistinctCountAccumulator::new(false)),
            ),
            ColumnType::LargeUtf8 => Ok(
                DistinctAccumulator::Text(StringDistinctCountAccumulator::new(true)),
            ),
            _ => Ok(
                DistinctAccumulator::Generic(
                    DistinctCountAccumulator::new(self.state_data_type.duplicate()),
                ),
            ),
        }
    }
}

} // verus!

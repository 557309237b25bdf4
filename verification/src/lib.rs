//! Distinct-value counting for a columnar query engine.
//!
//! The crate computes `COUNT(DISTINCT column)` over batches of typed column
//! data, across single- and two-stage (partial/final) aggregation plans.
//! A [`descriptor::DistinctCount`] descriptor dispatches, per declared column
//! type, to one of four accumulator variants: a native fixed-width set, a
//! bit-pattern set for floating-point columns, a text set, and a generic
//! tagged-scalar fallback. Accumulator state crosses partition boundaries as
//! a list value that merges as an idempotent, commutative set union.

pub mod types;
pub mod scalar;
pub mod error;
pub mod column;
pub mod sets;
pub mod estimate;
pub mod native;
pub mod float;
pub mod strings;
pub mod generic;
pub mod accumulator;
pub mod descriptor;
pub mod laws;

pub use accumulator::DistinctAccumulator;
pub use column::Column;
pub use column::ListColumn;
pub use column::ListValue;
pub use descriptor::DistinctCount;
pub use descriptor::ExprRef;
pub use error::AggError;
pub use scalar::Scalar;
pub use scalar::I256;
pub use types::ColumnType;
pub use types::Field;
pub use types::ListField;
pub use types::NativeKind;
pub use types::TimeUnit;
pub use types::TypeModel;

//! Errors of the accumulation core.
//!
//! Both variants are contract violations: they indicate a bug in the calling
//! layer (a dispatch inconsistent with the array's own type, or a malformed
//! state transfer), never a data-dependent condition. Absent data — nulls,
//! empty batches, empty state lists — is normal and never an error.

use vstd::prelude::*;

verus! {

/// An internal error: the caller broke the accumulation protocol.
#[derive(Clone, Copy, PartialEq, Eq, Structural, Debug)]
pub enum AggError {
    /// A column could not be reinterpreted as the accumulator's expected
    /// physical type.
    UnexpectedArrayType,
    /// A merge was handed more than the single state column the two-phase
    /// protocol transfers.
    MultipleStateArrays,
}

} // verus!

//! Tagged scalar values: the element representation of the generic fallback
//! accumulator, and the cell representation of every column.
//!
//! A [`Scalar`] holds one non-null typed value. Floating-point values are
//! carried as their raw bit patterns, which gives them a total equivalence
//! relation: bit-identical values are equal, any other pair (distinct NaN
//! payloads, a negative and a positive zero) is distinct. Decimal scalars
//! carry the 128- or 256-bit integer value; precision and scale live in the
//! declared [`ColumnType`](crate::types::ColumnType) of the column. Timestamp
//! scalars carry the tick count; the timezone annotation likewise lives in
//! the declared type.

use vstd::prelude::*;

use crate::types::kind_of;
use crate::types::ColumnType;
use crate::types::NativeKind;
use crate::types::TimeUnit;
use crate::types::TypeModel;

verus! {

/// A 256-bit signed integer, stored as a low 128-bit half and a high signed
/// 128-bit half (two's complement).
#[derive(Clone, Copy, PartialEq, Eq, Structural, Debug)]
pub struct I256 {
    pub lo: u128,
    pub hi: i128,
}

/// 2^128, the weight of the high half of an [`I256`].
pub open spec fn half_weight() -> int {
    0x1_0000_0000_0000_0000_0000_0000_0000_0000int
}

impl I256 {
    /// The mathematical value: high half weighted by 2^128 plus low half.
    pub open spec fn as_int(self) -> int {
        self.hi * half_weight() + self.lo
    }

    /// Two 256-bit integers with the same mathematical value have the same
    /// halves.
    pub proof fn lemma_as_int_injective(a: I256, b: I256)
        requires
            a.as_int() == b.as_int(),
        ensures
            a == b,
    {
        assert(a.hi == b.hi && a.lo == b.lo) by (nonlinear_arith)
            requires
                a.hi * half_weight() + a.lo == b.hi * half_weight() + b.lo,
                0 <= a.lo < half_weight(),
                0 <= b.lo < half_weight(),
        ;
    }
}

/// One non-null value of a supported column type.
#[derive(Clone, Debug)]
pub enum Scalar {
    Int8(i8),
    Int16(i16),
    Int32(i32),
    Int64(i64),
    UInt8(u8),
    UInt16(u16),
    UInt32(u32),
    UInt64(u64),
    Decimal128(i128),
    Decimal256(I256),
    Date32(i32),
    Date64(i64),
    Time32Second(i32),
    Time32Millisecond(i32),
    Time64Microsecond(i64),
    Time64Nanosecond(i64),
    TimestampSecond(i64),
    TimestampMillisecond(i64),
    TimestampMicrosecond(i64),
    TimestampNanosecond(i64),
    Float16(u16),
    Float32(u32),
    Float64(u64),
    Utf8(String),
    LargeUtf8(String),
    Boolean(bool),
    Binary(Vec<u8>),
    Null,
}

/// Mathematical model of a [`Scalar`]: integers become unbounded, text
/// becomes a character sequence, binary becomes a byte sequence.
pub enum ValueModel {
    Int8(int),
    Int16(int),
    Int32(int),
    Int64(int),
    UInt8(int),
    UInt16(int),
    UInt32(int),
    UInt64(int),
    Decimal128(int),
    Decimal256(int),
    Date32(int),
    Date64(int),
    Time32Second(int),
    Time32Millisecond(int),
    Time64Microsecond(int),
    Time64Nanosecond(int),
    TimestampSecond(int),
    TimestampMillisecond(int),
    TimestampMicrosecond(int),
    TimestampNanosecond(int),
    Float16Bits(int),
    Float32Bits(int),
    Float64Bits(int),
    Utf8(Seq<char>),
    LargeUtf8(Seq<char>),
    Boolean(bool),
    Binary(Seq<u8>),
    Null,
}

impl View for Scalar {
    type V = ValueModel;

    open spec fn view(&self) -> ValueModel {
        match self {
            Scalar::Int8(v) => ValueModel::Int8(*v as int),
            Scalar::Int16(v) => ValueModel::Int16(*v as int),
            Scalar::Int32(v) => ValueModel::Int32(*v as int),
            Scalar::Int64(v) => ValueModel::Int64(*v as int),
            Scalar::UInt8(v) => ValueModel::UInt8(*v as int),
            Scalar::UInt16(v) => ValueModel::UInt16(*v as int),
            Scalar::UInt32(v) => ValueModel::UInt32(*v as int),
            Scalar::UInt64(v) => ValueModel::UInt64(*v as int),
            Scalar::Decimal128(v) => ValueModel::Decimal128(*v as int),
            Scalar::Decimal256(v) => ValueModel::Decimal256(v.as_int()),
            Scalar::Date32(v) => ValueModel::Date32(*v as int),
            Scalar::Date64(v) => ValueModel::Date64(*v as int),
            Scalar::Time32Second(v) => ValueModel::Time32Second(*v as int),
            Scalar::Time32Millisecond(v) => ValueModel::Time32Millisecond(*v as int),
            Scalar::Time64Microsecond(v) => ValueModel::Time64Microsecond(*v as int),
            Scalar::Time64Nanosecond(v) => ValueModel::Time64Nanosecond(*v as int),
            Scalar::TimestampSecond(v) => ValueModel::TimestampSecond(*v as int),
            Scalar::TimestampMillisecond(v) => ValueModel::TimestampMillisecond(*v as int),
            Scalar::TimestampMicrosecond(v) => ValueModel::TimestampMicrosecond(*v as int),
            Scalar::TimestampNanosecond(v) => ValueModel::TimestampNanosecond(*v as int),
            Scalar::Float16(v) => ValueModel::Float16Bits(*v as int),
            Scalar::Float32(v) => ValueModel::Float32Bits(*v as int),
            Scalar::Float64(v) => ValueModel::Float64Bits(*v as int),
            Scalar::Utf8(s) => ValueModel::Utf8(s@),
            Scalar::LargeUtf8(s) => ValueModel::LargeUtf8(s@),
            Scalar::Boolean(b) => ValueModel::Boolean(*b),
            Scalar::Binary(v) => ValueModel::Binary(v@),
            Scalar::Null => ValueModel::Null,
        }
    }
}

/// Byte-vector equality, element by element.
fn bytes_eq(a: &Vec<u8>, b: &Vec<u8>) -> (r: bool)
    ensures
        r == (a@ == b@),
{
    if a.len() != b.len() {
        return false;
    }
    let mut i: usize = 0;
    while i < a.len()
        invariant
            i <= a@.len(),
            a@.len() == b@.len(),
            forall|j: int| 0 <= j < i ==> a@[j] == b@[j],
        decreases a@.len() - i,
    {
        if a[i] != b[i] {
            return false;
        }
        i = i + 1;
    }
    proof {
        assert(a@ =~= b@);
    }
    true
}

impl PartialEq for Scalar {
    fn eq(&self, other: &Self) -> (r: bool) {
        match (self, other) {
            (Scalar::Int8(a), Scalar::Int8(b)) => a == b,
            (Scalar::Int16(a), Scalar::Int16(b)) => a == b,
            (Scalar::Int32(a), Scalar::Int32(b)) => a == b,
            (Scalar::Int64(a), Scalar::Int64(b)) => a == b,
            (Scalar::UInt8(a), Scalar::UInt8(b)) => a == b,
            (Scalar::UInt16(a), Scalar::UInt16(b)) => a == b,
            (Scalar::UInt32(a), Scalar::UInt32(b)) => a == b,
            (Scalar::UInt64(a), Scalar::UInt64(b)) => a == b,
            (Scalar::Decimal128(a), Scalar::Decimal128(b)) => a == b,
            (Scalar::Decimal256(a), Scalar::Decimal256(b)) => {
                let r = *a == *b;
                proof {
                    if a.as_int() == b.as_int() {
                        I256::lemma_as_int_injective(*a, *b);
                    }
                }
                r
            },
            (Scalar::Date32(a), Scalar::Date32(b)) => a == b,
            (Scalar::Date64(a), Scalar::Date64(b)) => a == b,
            (Scalar::Time32Second(a), Scalar::Time32Second(b)) => a == b,
            (Scalar::Time32Millisecond(a), Scalar::Time32Millisecond(b)) => a == b,
            (Scalar::Time64Microsecond(a), Scalar::Time64Microsecond(b)) => a == b,
            (Scalar::Time64Nanosecond(a), Scalar::Time64Nanosecond(b)) => a == b,
            (Scalar::TimestampSecond(a), Scalar::TimestampSecond(b)) => a == b,
            (Scalar::TimestampMillisecond(a), Scalar::TimestampMillisecond(b)) => a == b,
            (Scalar::TimestampMicrosecond(a), Scalar::TimestampMicrosecond(b)) => a == b,
            (Scalar::TimestampNanosecond(a), Scalar::TimestampNanosecond(b)) => a == b,
            (Scalar::Float16(a), Scalar::Float16(b)) => a == b,
            (Scalar::Float32(a), Scalar::Float32(b)) => a == b,
            (Scalar::Float64(a), Scalar::Float64(b)) => a == b,
            (Scalar::Utf8(a), Scalar::Utf8(b)) => *a == *b,
            (Scalar::LargeUtf8(a), Scalar::LargeUtf8(b)) => *a == *b,
            (Scalar::Boolean(a), Scalar::Boolean(b)) => a == b,
            (Scalar::Binary(a), Scalar::Binary(b)) => bytes_eq(a, b),
            (Scalar::Null, Scalar::Null) => true,
            _ => false,
        }
    }
}

impl vstd::std_specs::cmp::PartialEqSpecImpl for Scalar {
    open spec fn obeys_eq_spec() -> bool {
        true
    }

    open spec fn eq_spec(&self, other: &Self) -> bool {
        self@ == other@
    }
}

/// Byte-vector copy, element by element.
fn clone_bytes(a: &Vec<u8>) -> (r: Vec<u8>)
    ensures
        r@ == a@,
{
    let mut r: Vec<u8> = Vec::new();
    let mut i: usize = 0;
    while i < a.len()
        invariant
            i <= a@.len(),
            r@ == a@.subrange(0, i as int),
        decreases a@.len() - i,
    {
        r.push(a[i]);
        proof {
            assert(r@ =~= a@.subrange(0, i + 1 as int));
        }
        i = i + 1;
    }
    proof {
        assert(r@ =~= a@);
    }
    r
}

impl Scalar {
    /// A copy with the same model.
    pub fn duplicate(&self) -> (r: Scalar)
        ensures
            r@ == self@,
    {
        match self {
            Scalar::Int8(v) => Scalar::Int8(*v),
            Scalar::Int16(v) => Scalar::Int16(*v),
            Scalar::Int32(v) => Scalar::Int32(*v),
            Scalar::Int64(v) => Scalar::Int64(*v),
            Scalar::UInt8(v) => Scalar::UInt8(*v),
            Scalar::UInt16(v) => Scalar::UInt16(*v),
            Scalar::UInt32(v) => Scalar::UInt32(*v),
            Scalar::UInt64(v) => Scalar::UInt64(*v),
            Scalar::Decimal128(v) => Scalar::Decimal128(*v),
            Scalar::Decimal256(v) => Scalar::Decimal256(*v),
            Scalar::Date32(v) => Scalar::Date32(*v),
            Scalar::Date64(v) => Scalar::Date64(*v),
            Scalar::Time32Second(v) => Scalar::Time32Second(*v),
            Scalar::Time32Millisecond(v) => Scalar::Time32Millisecond(*v),
            Scalar::Time64Microsecond(v) => Scalar::Time64Microsecond(*v),
            Scalar::Time64Nanosecond(v) => Scalar::Time64Nanosecond(*v),
            Scalar::TimestampSecond(v) => Scalar::TimestampSecond(*v),
            Scalar::TimestampMillisecond(v) => Scalar::TimestampMillisecond(*v),
            Scalar::TimestampMicrosecond(v) => Scalar::TimestampMicrosecond(*v),
            Scalar::TimestampNanosecond(v) => Scalar::TimestampNanosecond(*v),
            Scalar::Float16(v) => Scalar::Float16(*v),
            Scalar::Float32(v) => Scalar::Float32(*v),
            Scalar::Float64(v) => Scalar::Float64(*v),
            Scalar::Utf8(s) => Scalar::Utf8(s.clone()),
            Scalar::LargeUtf8(s) => Scalar::LargeUtf8(s.clone()),
            Scalar::Boolean(b) => Scalar::Boolean(*b),
            Scalar::Binary(v) => Scalar::Binary(clone_bytes(v)),
            Scalar::Null => Scalar::Null,
        }
    }
}

/// The extra heap bytes a scalar owns beyond its own inline size: the
/// encoded text payload or the binary payload. Fixed-width scalars own no
/// extra heap.
pub open spec fn scalar_extra_bytes(s: Scalar) -> int {
    match s {
        Scalar::Utf8(t) => crate::estimate::string_heap_bytes(t),
        Scalar::LargeUtf8(t) => crate::estimate::string_heap_bytes(t),
        Scalar::Binary(v) => v@.len() as int,
        _ => 0,
    }
}

impl Scalar {
    /// Executable counterpart of [`scalar_extra_bytes`].
    pub fn extra_size(&self) -> (r: usize)
        ensures
            r as int == scalar_extra_bytes(*self),
    {
        match self {
            Scalar::Utf8(t) => t.as_str().len(),
            Scalar::LargeUtf8(t) => t.as_str().len(),
            Scalar::Binary(v) => v.len(),
            _ => 0,
        }
    }
}

/// Whether a value is one that a typed array of the given physical kind
/// stores.
pub open spec fn scalar_is_kind(m: ValueModel, k: NativeKind) -> bool {
    match k {
        NativeKind::Int8 => m is Int8,
        NativeKind::Int16 => m is Int16,
        NativeKind::Int32 => m is Int32,
        NativeKind::Int64 => m is Int64,
        NativeKind::UInt8 => m is UInt8,
        NativeKind::UInt16 => m is UInt16,
        NativeKind::UInt32 => m is UInt32,
        NativeKind::UInt64 => m is UInt64,
        NativeKind::Decimal128 => m is Decimal128,
        NativeKind::Decimal256 => m is Decimal256,
        NativeKind::Date32 => m is Date32,
        NativeKind::Date64 => m is Date64,
        NativeKind::Time32Second => m is Time32Second,
        NativeKind::Time32Millisecond => m is Time32Millisecond,
        NativeKind::Time64Microsecond => m is Time64Microsecond,
        NativeKind::Time64Nanosecond => m is Time64Nanosecond,
        NativeKind::TimestampSecond => m is TimestampSecond,
        NativeKind::TimestampMillisecond => m is TimestampMillisecond,
        NativeKind::TimestampMicrosecond => m is TimestampMicrosecond,
        NativeKind::TimestampNanosecond => m is TimestampNanosecond,
        NativeKind::Float16 => m is Float16Bits,
        NativeKind::Float32 => m is Float32Bits,
        NativeKind::Float64 => m is Float64Bits,
    }
}

/// The integer payload of a fixed-width value (floating point: the bit
/// pattern read as an unsigned integer). Zero for values that have none.
pub open spec fn scalar_kind_int(m: ValueModel) -> int {
    match m {
        ValueModel::Int8(v) => v,
        ValueModel::Int16(v) => v,
        ValueModel::Int32(v) => v,
        ValueModel::Int64(v) => v,
        ValueModel::UInt8(v) => v,
        ValueModel::UInt16(v) => v,
        ValueModel::UInt32(v) => v,
        ValueModel::UInt64(v) => v,
        ValueModel::Decimal128(v) => v,
        ValueModel::Decimal256(v) => v,
        ValueModel::Date32(v) => v,
        ValueModel::Date64(v) => v,
        ValueModel::Time32Second(v) => v,
        ValueModel::Time32Millisecond(v) => v,
        ValueModel::Time64Microsecond(v) => v,
        ValueModel::Time64Nanosecond(v) => v,
        ValueModel::TimestampSecond(v) => v,
        ValueModel::TimestampMillisecond(v) => v,
        ValueModel::TimestampMicrosecond(v) => v,
        ValueModel::TimestampNanosecond(v) => v,
        ValueModel::Float16Bits(v) => v,
        ValueModel::Float32Bits(v) => v,
        ValueModel::Float64Bits(v) => v,
        _ => 0,
    }
}

/// The value of the given physical kind with the given integer payload.
pub open spec fn native_model(k: NativeKind, v: int) -> ValueModel {
    match k {
        NativeKind::Int8 => ValueModel::Int8(v),
        NativeKind::Int16 => ValueModel::Int16(v),
        NativeKind::Int32 => ValueModel::Int32(v),
        NativeKind::Int64 => ValueModel::Int64(v),
        NativeKind::UInt8 => ValueModel::UInt8(v),
        NativeKind::UInt16 => ValueModel::UInt16(v),
        NativeKind::UInt32 => ValueModel::UInt32(v),
        NativeKind::UInt64 => ValueModel::UInt64(v),
        NativeKind::Decimal128 => ValueModel::Decimal128(v),
        NativeKind::Decimal256 => ValueModel::Decimal256(v),
        NativeKind::Date32 => ValueModel::Date32(v),
        NativeKind::Date64 => ValueModel::Date64(v),
        NativeKind::Time32Second => ValueModel::Time32Second(v),
        NativeKind::Time32Millisecond => ValueModel::Time32Millisecond(v),
        NativeKind::Time64Microsecond => ValueModel::Time64Microsecond(v),
        NativeKind::Time64Nanosecond => ValueModel::Time64Nanosecond(v),
        NativeKind::TimestampSecond => ValueModel::TimestampSecond(v),
        NativeKind::TimestampMillisecond => ValueModel::TimestampMillisecond(v),
        NativeKind::TimestampMicrosecond => ValueModel::TimestampMicrosecond(v),
        NativeKind::TimestampNanosecond => ValueModel::TimestampNanosecond(v),
        NativeKind::Float16 => ValueModel::Float16Bits(v),
        NativeKind::Float32 => ValueModel::Float32Bits(v),
        NativeKind::Float64 => ValueModel::Float64Bits(v),
    }
}

/// A value of a physical kind is its kind's model of its own payload.
pub proof fn lemma_native_model_roundtrip(m: ValueModel, k: NativeKind)
    requires
        scalar_is_kind(m, k),
    ensures
        native_model(k, scalar_kind_int(m)) == m,
{
}

/// A kind's value is a well-typed cell of the kind's default declared type.
pub proof fn lemma_native_default_matches(k: NativeKind, v: int)
    ensures
        cell_matches(native_model(k, v), crate::types::kind_default_model(k)),
{
}

/// Whether a value can be a (non-null) cell of a column of the given
/// declared type. A null-typed column has no non-null cells.
pub open spec fn cell_matches(m: ValueModel, t: TypeModel) -> bool {
    match t {
        TypeModel::Int8 => m is Int8,
        TypeModel::Int16 => m is Int16,
        TypeModel::Int32 => m is Int32,
        TypeModel::Int64 => m is Int64,
        TypeModel::UInt8 => m is UInt8,
        TypeModel::UInt16 => m is UInt16,
        TypeModel::UInt32 => m is UInt32,
        TypeModel::UInt64 => m is UInt64,
        TypeModel::Decimal128(_, _) => m is Decimal128,
        TypeModel::Decimal256(_, _) => m is Decimal256,
        TypeModel::Date32 => m is Date32,
        TypeModel::Date64 => m is Date64,
        TypeModel::Time32(TimeUnit::Second) => m is Time32Second,
        TypeModel::Time32(TimeUnit::Millisecond) => m is Time32Millisecond,
        TypeModel::Time32(_) => false,
        TypeModel::Time64(TimeUnit::Microsecond) => m is Time64Microsecond,
        TypeModel::Time64(TimeUnit::Nanosecond) => m is Time64Nanosecond,
        TypeModel::Time64(_) => false,
        TypeModel::Timestamp(TimeUnit::Second, _) => m is TimestampSecond,
        TypeModel::Timestamp(TimeUnit::Millisecond, _) => m is TimestampMillisecond,
        TypeModel::Timestamp(TimeUnit::Microsecond, _) => m is TimestampMicrosecond,
        TypeModel::Timestamp(TimeUnit::Nanosecond, _) => m is TimestampNanosecond,
        TypeModel::Float16 => m is Float16Bits,
        TypeModel::Float32 => m is Float32Bits,
        TypeModel::Float64 => m is Float64Bits,
        TypeModel::Utf8 => m is Utf8,
        TypeModel::LargeUtf8 => m is LargeUtf8,
        TypeModel::Boolean => m is Boolean,
        TypeModel::Binary => m is Binary,
        TypeModel::Null => false,
    }
}

/// When a declared type has physical kind `k`, its cells are exactly the
/// values of that kind.
pub proof fn lemma_cell_matches_kind(m: ValueModel, t: TypeModel, k: NativeKind)
    requires
        kind_of(t) == Some(k),
    ensures
        cell_matches(m, t) == scalar_is_kind(m, k),
{
}

impl Scalar {
    /// Executable counterpart of [`cell_matches`].
    pub fn matches_type(&self, t: &ColumnType) -> (r: bool)
        ensures
            r == cell_matches(self@, t@),
    {
        match (t, self) {
            (ColumnType::Int8, Scalar::Int8(_)) => true,
            (ColumnType::Int16, Scalar::Int16(_)) => true,
            (ColumnType::Int32, Scalar::Int32(_)) => true,
            (ColumnType::Int64, Scalar::Int64(_)) => true,
            (ColumnType::UInt8, Scalar::UInt8(_)) => true,
            (ColumnType::UInt16, Scalar::UInt16(_)) => true,
            (ColumnType::UInt32, Scalar::UInt32(_)) => true,
            (ColumnType::UInt64, Scalar::UInt64(_)) => true,
            (ColumnType::Decimal128(_, _), Scalar::Decimal128(_)) => true,
            (ColumnType::Decimal256(_, _), Scalar::Decimal256(_)) => true,
            (ColumnType::Date32, Scalar::Date32(_)) => true,
            (ColumnType::Date64, Scalar::Date64(_)) => true,
            (ColumnType::Time32(TimeUnit::Second), Scalar::Time32Second(_)) => true,
            (ColumnType::Time32(TimeUnit::Millisecond), Scalar::Time32Millisecond(_)) => true,
            (ColumnType::Time64(TimeUnit::Microsecond), Scalar::Time64Microsecond(_)) => true,
            (ColumnType::Time64(TimeUnit::Nanosecond), Scalar::Time64Nanosecond(_)) => true,
            (ColumnType::Timestamp(TimeUnit::Second, _), Scalar::TimestampSecond(_)) => true,
            (
                ColumnType::Timestamp(TimeUnit::Millisecond, _),
                Scalar::TimestampMillisecond(_),
            ) => true,
            (
                ColumnType::Timestamp(TimeUnit::Microsecond, _),
                Scalar::TimestampMicrosecond(_),
            ) => true,
            (ColumnType::Timestamp(TimeUnit::Nanosecond, _), Scalar::TimestampNanosecond(_)) => {
                true
            },
            (ColumnType::Float16, Scalar::Float16(_)) => true,
            (ColumnType::Float32, Scalar::Float32(_)) => true,
            (ColumnType::Float64, Scalar::Float64(_)) => true,
            (ColumnType::Utf8, Scalar::Utf8(_)) => true,
            (ColumnType::LargeUtf8, Scalar::LargeUtf8(_)) => true,
            (ColumnType::Boolean, Scalar::Boolean(_)) => true,
            (ColumnType::Binary, Scalar::Binary(_)) => true,
            _ => false,
        }
    }
}

} // verus!

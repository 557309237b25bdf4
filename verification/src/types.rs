//! Declared column types, their physical kinds, and output field metadata.
//!
//! [`ColumnType`] is the declared element type of a column, the value that
//! drives accumulator dispatch. [`NativeKind`] identifies the physical
//! fixed-width representation that a primitive column stores; several
//! declared types (for example a 32-bit date and a 32-bit integer) share a
//! width but remain distinct kinds, because a typed array of one cannot be
//! reinterpreted as the other.

use vstd::prelude::*;

verus! {

/// Granularity of a time or timestamp type.
#[derive(Clone, Copy, PartialEq, Eq, Structural, Debug)]
pub enum TimeUnit {
    Second,
    Millisecond,
    Microsecond,
    Nanosecond,
}

/// The physical representation of a primitive (fixed-width) column.
///
/// A typed array can be reinterpreted as an accumulator's expected input
/// exactly when their kinds are equal.
#[derive(Clone, Copy, PartialEq, Eq, Structural, Debug)]
pub enum NativeKind {
    Int8,
    Int16,
    Int32,
    Int64,
    UInt8,
    UInt16,
    UInt32,
    UInt64,
    Decimal128,
    Decimal256,
    Date32,
    Date64,
    Time32Second,
    Time32Millisecond,
    Time64Microsecond,
    Time64Nanosecond,
    TimestampSecond,
    TimestampMillisecond,
    TimestampMicrosecond,
    TimestampNanosecond,
    Float16,
    Float32,
    Float64,
}

/// The declared element type of a column.
///
/// Decimal types carry precision and scale; timestamps carry an optional
/// timezone annotation. Neither detail changes which accumulator variant is
/// chosen.
#[derive(Debug)]
pub enum ColumnType {
    Int8,
    Int16,
    Int32,
    Int64,
    UInt8,
    UInt16,
    UInt32,
    UInt64,
    Decimal128(u8, i8),
    Decimal256(u8, i8),
    Date32,
    Date64,
    Time32(TimeUnit),
    Time64(TimeUnit),
    Timestamp(TimeUnit, Option<String>),
    Float16,
    Float32,
    Float64,
    Utf8,
    LargeUtf8,
    Boolean,
    Binary,
    Null,
}

/// Mathematical model of a [`ColumnType`]: the timezone annotation is a
/// character sequence instead of a heap string.
pub enum TypeModel {
    Int8,
    Int16,
    Int32,
    Int64,
    UInt8,
    UInt16,
    UInt32,
    UInt64,
    Decimal128(int, int),
    Decimal256(int, int),
    Date32,
    Date64,
    Time32(TimeUnit),
    Time64(TimeUnit),
    Timestamp(TimeUnit, Option<Seq<char>>),
    Float16,
    Float32,
    Float64,
    Utf8,
    LargeUtf8,
    Boolean,
    Binary,
    Null,
}

impl View for ColumnType {
    type V = TypeModel;

    open spec fn view(&self) -> TypeModel {
        match self {
            ColumnType::Int8 => TypeModel::Int8,
            ColumnType::Int16 => TypeModel::Int16,
            ColumnType::Int32 => TypeModel::Int32,
            ColumnType::Int64 => TypeModel::Int64,
            ColumnType::UInt8 => TypeModel::UInt8,
            ColumnType::UInt16 => TypeModel::UInt16,
            ColumnType::UInt32 => TypeModel::UInt32,
            ColumnType::UInt64 => TypeModel::UInt64,
            ColumnType::Decimal128(p, s) => TypeModel::Decimal128(*p as int, *s as int),
            ColumnType::Decimal256(p, s) => TypeModel::Decimal256(*p as int, *s as int),
            ColumnType::Date32 => TypeModel::Date32,
            ColumnType::Date64 => TypeModel::Date64,
            ColumnType::Time32(u) => TypeModel::Time32(*u),
            ColumnType::Time64(u) => TypeModel::Time64(*u),
            ColumnType::Timestamp(u, tz) => TypeModel::Timestamp(
                *u,
                match tz {
                    Some(z) => Some(z@),
                    None => None,
                },
            ),
            ColumnType::Float16 => TypeModel::Float16,
            ColumnType::Float32 => TypeModel::Float32,
            ColumnType::Float64 => TypeModel::Float64,
            ColumnType::Utf8 => TypeModel::Utf8,
            ColumnType::LargeUtf8 => TypeModel::LargeUtf8,
            ColumnType::Boolean => TypeModel::Boolean,
            ColumnType::Binary => TypeModel::Binary,
            ColumnType::Null => TypeModel::Null,
        }
    }
}

impl PartialEq for ColumnType {
    fn eq(&self, other: &Self) -> (r: bool) {
        match (self, other) {
            (ColumnType::Int8, ColumnType::Int8) => true,
            (ColumnType::Int16, ColumnType::Int16) => true,
            (ColumnType::Int32, ColumnType::Int32) => true,
            (ColumnType::Int64, ColumnType::Int64) => true,
            (ColumnType::UInt8, ColumnType::UInt8) => true,
            (ColumnType::UInt16, ColumnType::UInt16) => true,
            (ColumnType::UInt32, ColumnType::UInt32) => true,
            (ColumnType::UInt64, ColumnType::UInt64) => true,
            (ColumnType::Decimal128(p1, s1), ColumnType::Decimal128(p2, s2)) => {
                p1 == p2 && s1 == s2
            },
            (ColumnType::Decimal256(p1, s1), ColumnType::Decimal256(p2, s2)) => {
                p1 == p2 && s1 == s2
            },
            (ColumnType::Date32, ColumnType::Date32) => true,
            (ColumnType::Date64, ColumnType::Date64) => true,
            (ColumnType::Time32(u1), ColumnType::Time32(u2)) => u1 == u2,
            (ColumnType::Time64(u1), ColumnType::Time64(u2)) => u1 == u2,
            (ColumnType::Timestamp(u1, tz1), ColumnType::Timestamp(u2, tz2)) => {
                u1 == u2 && match (tz1, tz2) {
                    (None, None) => true,
                    (Some(z1), Some(z2)) => *z1 == *z2,
                    _ => false,
                }
            },
            (ColumnType::Float16, ColumnType::Float16) => true,
            (ColumnType::Float32, ColumnType::Float32) => true,
            (ColumnType::Float64, ColumnType::Float64) => true,
            (ColumnType::Utf8, ColumnType::Utf8) => true,
            (ColumnType::LargeUtf8, ColumnType::LargeUtf8) => true,
            (ColumnType::Boolean, ColumnType::Boolean) => true,
            (ColumnType::Binary, ColumnType::Binary) => true,
            (ColumnType::Null, ColumnType::Null) => true,
            _ => false,
        }
    }
}

impl vstd::std_specs::cmp::PartialEqSpecImpl for ColumnType {
    open spec fn obeys_eq_spec() -> bool {
        true
    }

    open spec fn eq_spec(&self, other: &Self) -> bool {
        self@ == other@
    }
}

impl ColumnType {
    /// An exact structural copy of the type.
    pub fn duplicate(&self) -> (r: Self)
        ensures
            r@ == self@,
    {
        match self {
            ColumnType::Int8 => ColumnType::Int8,
            ColumnType::Int16 => ColumnType::Int16,
            ColumnType::Int32 => ColumnType::Int32,
            ColumnType::Int64 => ColumnType::Int64,
            ColumnType::UInt8 => ColumnType::UInt8,
            ColumnType::UInt16 => ColumnType::UInt16,
            ColumnType::UInt32 => ColumnType::UInt32,
            ColumnType::UInt64 => ColumnType::UInt64,
            ColumnType::Decimal128(p, s) => ColumnType::Decimal128(*p, *s),
            ColumnType::Decimal256(p, s) => ColumnType::Decimal256(*p, *s),
            ColumnType::Date32 => ColumnType::Date32,
            ColumnType::Date64 => ColumnType::Date64,
            ColumnType::Time32(u) => ColumnType::Time32(*u),
            ColumnType::Time64(u) => ColumnType::Time64(*u),
            ColumnType::Timestamp(u, tz) => ColumnType::Timestamp(
                *u,
                match tz {
                    Some(z) => Some(z.clone()),
                    None => None,
                },
            ),
            ColumnType::Float16 => ColumnType::Float16,
            ColumnType::Float32 => ColumnType::Float32,
            ColumnType::Float64 => ColumnType::Float64,
            ColumnType::Utf8 => ColumnType::Utf8,
            ColumnType::LargeUtf8 => ColumnType::LargeUtf8,
            ColumnType::Boolean => ColumnType::Boolean,
            ColumnType::Binary => ColumnType::Binary,
            ColumnType::Null => ColumnType::Null,
        }
    }
}

/// The physical kind a declared type stores, or `None` when the type has no
/// fixed-width representation that an accumulator handles.
///
/// A 32-bit time only exists at second or millisecond granularity, and a
/// 64-bit time only at microsecond or nanosecond granularity; other
/// combinations have no physical array form and map to `None`.
pub open spec fn kind_of(t: TypeModel) -> Option<NativeKind> {
    match t {
        TypeModel::Int8 => Some(NativeKind::Int8),
        TypeModel::Int16 => Some(NativeKind::Int16),
        TypeModel::Int32 => Some(NativeKind::Int32),
        TypeModel::Int64 => Some(NativeKind::Int64),
        TypeModel::UInt8 => Some(NativeKind::UInt8),
        TypeModel::UInt16 => Some(NativeKind::UInt16),
        TypeModel::UInt32 => Some(NativeKind::UInt32),
        TypeModel::UInt64 => Some(NativeKind::UInt64),
        TypeModel::Decimal128(_, _) => Some(NativeKind::Decimal128),
        TypeModel::Decimal256(_, _) => Some(NativeKind::Decimal256),
        TypeModel::Date32 => Some(NativeKind::Date32),
        TypeModel::Date64 => Some(NativeKind::Date64),
        TypeModel::Time32(TimeUnit::Second) => Some(NativeKind::Time32Second),
        TypeModel::Time32(TimeUnit::Millisecond) => Some(NativeKind::Time32Millisecond),
        TypeModel::Time32(_) => None,
        TypeModel::Time64(TimeUnit::Microsecond) => Some(NativeKind::Time64Microsecond),
        TypeModel::Time64(TimeUnit::Nanosecond) => Some(NativeKind::Time64Nanosecond),
        TypeModel::Time64(_) => None,
        TypeModel::Timestamp(TimeUnit::Second, _) => Some(NativeKind::TimestampSecond),
        TypeModel::Timestamp(TimeUnit::Millisecond, _) => Some(NativeKind::TimestampMillisecond),
        TypeModel::Timestamp(TimeUnit::Microsecond, _) => Some(NativeKind::TimestampMicrosecond),
        TypeModel::Timestamp(TimeUnit::Nanosecond, _) => Some(NativeKind::TimestampNanosecond),
        TypeModel::Float16 => Some(NativeKind::Float16),
        TypeModel::Float32 => Some(NativeKind::Float32),
        TypeModel::Float64 => Some(NativeKind::Float64),
        TypeModel::Utf8 => None,
        TypeModel::LargeUtf8 => None,
        TypeModel::Boolean => None,
        TypeModel::Binary => None,
        TypeModel::Null => None,
    }
}

/// Whether a kind stores floating-point bit patterns.
pub open spec fn kind_is_float(k: NativeKind) -> bool {
    k == NativeKind::Float16 || k == NativeKind::Float32 || k == NativeKind::Float64
}

impl ColumnType {
    /// The physical kind of this declared type, `None` when it has none.
    pub fn native_kind(&self) -> (r: Option<NativeKind>)
        ensures
            r == kind_of(self@),
    {
        match self {
            ColumnType::Int8 => Some(NativeKind::Int8),
            ColumnType::Int16 => Some(NativeKind::Int16),
            ColumnType::Int32 => Some(NativeKind::Int32),
            ColumnType::Int64 => Some(NativeKind::Int64),
            ColumnType::UInt8 => Some(NativeKind::UInt8),
            ColumnType::UInt16 => Some(NativeKind::UInt16),
            ColumnType::UInt32 => Some(NativeKind::UInt32),
            ColumnType::UInt64 => Some(NativeKind::UInt64),
            ColumnType::Decimal128(_, _) => Some(NativeKind::Decimal128),
            ColumnType::Decimal256(_, _) => Some(NativeKind::Decimal256),
            ColumnType::Date32 => Some(NativeKind::Date32),
            ColumnType::Date64 => Some(NativeKind::Date64),
            ColumnType::Time32(TimeUnit::Second) => Some(NativeKind::Time32Second),
            ColumnType::Time32(TimeUnit::Millisecond) => Some(NativeKind::Time32Millisecond),
            ColumnType::Time32(_) => None,
            ColumnType::Time64(TimeUnit::Microsecond) => Some(NativeKind::Time64Microsecond),
            ColumnType::Time64(TimeUnit::Nanosecond) => Some(NativeKind::Time64Nanosecond),
            ColumnType::Time64(_) => None,
            ColumnType::Timestamp(TimeUnit::Second, _) => Some(NativeKind::TimestampSecond),
            ColumnType::Timestamp(TimeUnit::Millisecond, _) => Some(
                NativeKind::TimestampMillisecond,
            ),
            ColumnType::Timestamp(TimeUnit::Microsecond, _) => Some(
                NativeKind::TimestampMicrosecond,
            ),
            ColumnType::Timestamp(TimeUnit::Nanosecond, _) => Some(NativeKind::TimestampNanosecond),
            ColumnType::Float16 => Some(NativeKind::Float16),
            ColumnType::Float32 => Some(NativeKind::Float32),
            ColumnType::Float64 => Some(NativeKind::Float64),
            ColumnType::Utf8 => None,
            ColumnType::LargeUtf8 => None,
            ColumnType::Boolean => None,
            ColumnType::Binary => None,
            ColumnType::Null => None,
        }
    }
}

/// The declared type under which a kind's values are written back out when an
/// accumulator materializes its set. Parameterized types come back with their
/// defaults: decimals with the widest default precision and scale, timestamps
/// without a timezone annotation.
pub open spec fn kind_default_model(k: NativeKind) -> TypeModel {
    match k {
        NativeKind::Int8 => TypeModel::Int8,
        NativeKind::Int16 => TypeModel::Int16,
        NativeKind::Int32 => TypeModel::Int32,
        NativeKind::Int64 => TypeModel::Int64,
        NativeKind::UInt8 => TypeModel::UInt8,
        NativeKind::UInt16 => TypeModel::UInt16,
        NativeKind::UInt32 => TypeModel::UInt32,
        NativeKind::UInt64 => TypeModel::UInt64,
        NativeKind::Decimal128 => TypeModel::Decimal128(38, 10),
        NativeKind::Decimal256 => TypeModel::Decimal256(76, 10),
        NativeKind::Date32 => TypeModel::Date32,
        NativeKind::Date64 => TypeModel::Date64,
        NativeKind::Time32Second => TypeModel::Time32(TimeUnit::Second),
        NativeKind::Time32Millisecond => TypeModel::Time32(TimeUnit::Millisecond),
        NativeKind::Time64Microsecond => TypeModel::Time64(TimeUnit::Microsecond),
        NativeKind::Time64Nanosecond => TypeModel::Time64(TimeUnit::Nanosecond),
        NativeKind::TimestampSecond => TypeModel::Timestamp(TimeUnit::Second, None),
        NativeKind::TimestampMillisecond => TypeModel::Timestamp(TimeUnit::Millisecond, None),
        NativeKind::TimestampMicrosecond => TypeModel::Timestamp(TimeUnit::Microsecond, None),
        NativeKind::TimestampNanosecond => TypeModel::Timestamp(TimeUnit::Nanosecond, None),
        NativeKind::Float16 => TypeModel::Float16,
        NativeKind::Float32 => TypeModel::Float32,
        NativeKind::Float64 => TypeModel::Float64,
    }
}

impl NativeKind {
    /// Executable counterpart of [`kind_default_model`].
    pub fn default_type(&self) -> (r: ColumnType)
        ensures
            r@ == kind_default_model(*self),
    {
        match self {
            NativeKind::Int8 => ColumnType::Int8,
            NativeKind::Int16 => ColumnType::Int16,
            NativeKind::Int32 => ColumnType::Int32,
            NativeKind::Int64 => ColumnType::Int64,
            NativeKind::UInt8 => ColumnType::UInt8,
            NativeKind::UInt16 => ColumnType::UInt16,
            NativeKind::UInt32 => ColumnType::UInt32,
            NativeKind::UInt64 => ColumnType::UInt64,
            NativeKind::Decimal128 => ColumnType::Decimal128(38, 10),
            NativeKind::Decimal256 => ColumnType::Decimal256(76, 10),
            NativeKind::Date32 => ColumnType::Date32,
            NativeKind::Date64 => ColumnType::Date64,
            NativeKind::Time32Second => ColumnType::Time32(TimeUnit::Second),
            NativeKind::Time32Millisecond => ColumnType::Time32(TimeUnit::Millisecond),
            NativeKind::Time64Microsecond => ColumnType::Time64(TimeUnit::Microsecond),
            NativeKind::Time64Nanosecond => ColumnType::Time64(TimeUnit::Nanosecond),
            NativeKind::TimestampSecond => ColumnType::Timestamp(TimeUnit::Second, None),
            NativeKind::TimestampMillisecond => ColumnType::Timestamp(TimeUnit::Millisecond, None),
            NativeKind::TimestampMicrosecond => ColumnType::Timestamp(TimeUnit::Microsecond, None),
            NativeKind::TimestampNanosecond => ColumnType::Timestamp(TimeUnit::Nanosecond, None),
            NativeKind::Float16 => ColumnType::Float16,
            NativeKind::Float32 => ColumnType::Float32,
            NativeKind::Float64 => ColumnType::Float64,
        }
    }
}

/// Whether a declared type has a fixed-width in-memory element, which lets
/// the memory estimator treat every element as the same size.
pub open spec fn spec_is_primitive(t: TypeModel) -> bool {
    match t {
        TypeModel::Utf8 => false,
        TypeModel::LargeUtf8 => false,
        TypeModel::Boolean => false,
        TypeModel::Binary => false,
        TypeModel::Null => false,
        _ => true,
    }
}

impl ColumnType {
    /// Executable counterpart of [`spec_is_primitive`].
    pub fn is_primitive(&self) -> (r: bool)
        ensures
            r == spec_is_primitive(self@),
    {
        match self {
            ColumnType::Utf8 => false,
            ColumnType::LargeUtf8 => false,
            ColumnType::Boolean => false,
            ColumnType::Binary => false,
            ColumnType::Null => false,
            _ => true,
        }
    }
}

/// Output field metadata: a name, a declared type, and nullability.
#[derive(Debug)]
pub struct Field {
    pub name: String,
    pub dtype: ColumnType,
    pub nullable: bool,
}

/// Mathematical model of a [`Field`].
pub struct FieldModel {
    pub name: Seq<char>,
    pub dtype: TypeModel,
    pub nullable: bool,
}

impl View for Field {
    type V = FieldModel;

    open spec fn view(&self) -> FieldModel {
        FieldModel { name: self.name@, dtype: self.dtype@, nullable: self.nullable }
    }
}

/// Metadata of a state-transfer field: a list-typed column whose rows each
/// hold one partial accumulator's distinct set.
#[derive(Debug)]
pub struct ListField {
    pub name: String,
    pub item: Field,
    pub nullable: bool,
}

/// Mathematical model of a [`ListField`].
pub struct ListFieldModel {
    pub name: Seq<char>,
    pub item: FieldModel,
    pub nullable: bool,
}

impl View for ListField {
    type V = ListFieldModel;

    open spec fn view(&self) -> ListFieldModel {
        ListFieldModel { name: self.name@, item: self.item@, nullable: self.nullable }
    }
}

} // verus!

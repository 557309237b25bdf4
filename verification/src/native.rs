//! The native fixed-width distinct accumulator.
//!
//! [`NativeValue`] is the trait bundle a physical element representation
//! must provide: a mathematical value, an equality decided by that value,
//! and zero-cost conversions to and from the tagged scalar of a handled
//! physical kind. [`NativeDistinctCountAccumulator`] stores such values
//! directly — no wrapper, no boxing — in a duplicate-free vector.

use vstd::prelude::*;

use crate::column::present_values;
use crate::column::Column;
use crate::column::ListColumn;
use crate::column::ListValue;
use crate::error::AggError;
use crate::estimate::add_sat;
use crate::estimate::estimated_buckets;
use crate::estimate::mul_sat;
use crate::estimate::spec_buckets;
use crate::scalar::lemma_cell_matches_kind;
use crate::scalar::lemma_native_default_matches;
use crate::scalar::lemma_native_model_roundtrip;
use crate::scalar::native_model;
use crate::scalar::scalar_is_kind;
use crate::scalar::scalar_kind_int;
use crate::scalar::Scalar;
use crate::scalar::ValueModel;
use crate::sets::lemma_to_set_step;
use crate::types::kind_default_model;
use crate::types::kind_of;
use crate::types::NativeKind;

verus! {

/// A fixed-width element representation with bit-pattern equality and
/// conversions to and from the scalars of its physical kinds.
pub trait NativeValue: Copy + Sized {
    /// The mathematical value. For a floating-point representation this is
    /// the bit pattern read as an unsigned integer.
    spec fn as_int(self) -> int;

    /// The physical kinds whose arrays store this representation.
    spec fn handles(k: NativeKind) -> bool;

    /// Equality of mathematical values.
    fn eq_value(self, other: Self) -> (r: bool)
        ensures
            r == (self.as_int() == other.as_int()),
    ;

    /// Reads the representation out of a scalar of a handled kind.
    fn of_scalar(s: &Scalar) -> (v: Self)
        requires
            exists|k: NativeKind| Self::handles(k) && scalar_is_kind(s@, k),
        ensures
            v.as_int() == scalar_kind_int(s@),
    ;

    /// Wraps the representation back into a scalar of the given kind.
    fn to_scalar(self, k: NativeKind) -> (s: Scalar)
        requires
            Self::handles(k),
        ensures
            s@ == native_model(k, self.as_int()),
    ;
}

impl NativeValue for i8 {
    open spec fn as_int(self) -> int {
        self as int
    }

    open spec fn handles(k: NativeKind) -> bool {
        k == NativeKind::Int8
    }

    fn eq_value(self, other: Self) -> (r: bool) {
        self == other
    }

    fn of_scalar(s: &Scalar) -> (v: Self) {
        match s {
            Scalar::Int8(v) => *v,
            _ => unreached(),
        }
    }

    fn to_scalar(self, k: NativeKind) -> (s: Scalar) {
        match k {
            NativeKind::Int8 => Scalar::Int8(self),
            _ => unreached(),
        }
    }
}

impl NativeValue for i16 {
    open spec fn as_int(self) -> int {
        self as int
    }

    open spec fn handles(k: NativeKind) -> bool {
        k == NativeKind::Int16
    }

    fn eq_value(self, other: Self) -> (r: bool) {
        self == other
    }

    fn of_scalar(s: &Scalar) -> (v: Self) {
        match s {
            Scalar::Int16(v) => *v,
            _ => unreached(),
        }
    }

    fn to_scalar(self, k: NativeKind) -> (s: Scalar) {
        match k {
            NativeKind::Int16 => Scalar::Int16(self),
            _ => unreached(),
        }
    }
}

impl NativeValue for i32 {
    open spec fn as_int(self) -> int {
        self as int
    }

    open spec fn handles(k: NativeKind) -> bool {
        k == NativeKind::Int32 || k == NativeKind::Date32 || k == NativeKind::Time32Second || k
            == NativeKind::Time32Millisecond
    }

    fn eq_value(self, other: Self) -> (r: bool) {
        self == other
    }

    fn of_scalar(s: &Scalar) -> (v: Self) {
        match s {
            Scalar::Int32(v) => *v,
            Scalar::Date32(v) => *v,
            Scalar::Time32Second(v) => *v,
            Scalar::Time32Millisecond(v) => *v,
            _ => unreached(),
        }
    }

    fn to_scalar(self, k: NativeKind) -> (s: Scalar) {
        match k {
            NativeKind::Int32 => Scalar::Int32(self),
            NativeKind::Date32 => Scalar::Date32(self),
            NativeKind::Time32Second => Scalar::Time32Second(self),
            NativeKind::Time32Millisecond => Scalar::Time32Millisecond(self),
            _ => unreached(),
        }
    }
}

impl NativeValue for i64 {
    open spec fn as_int(self) -> int {
        self as int
    }

    open spec fn handles(k: NativeKind) -> bool {
        k == NativeKind::Int64 || k == NativeKind::Date64 || k == NativeKind::Time64Microsecond
            || k == NativeKind::Time64Nanosecond || k == NativeKind::TimestampSecond || k
            == NativeKind::TimestampMillisecond || k == NativeKind::TimestampMicrosecond || k
            == NativeKind::TimestampNanosecond
    }

    fn eq_value(self, other: Self) -> (r: bool) {
        self == other
    }

    fn of_scalar(s: &Scalar) -> (v: Self) {
        match s {
            Scalar::Int64(v) => *v,
            Scalar::Date64(v) => *v,
            Scalar::Time64Microsecond(v) => *v,
            Scalar::Time64Nanosecond(v) => *v,
            Scalar::TimestampSecond(v) => *v,
            Scalar::TimestampMillisecond(v) => *v,
            Scalar::TimestampMicrosecond(v) => *v,
            Scalar::TimestampNanosecond(v) => *v,
            _ => unreached(),
        }
    }

    fn to_scalar(self, k: NativeKind) -> (s: Scalar) {
        match k {
            NativeKind::Int64 => Scalar::Int64(self),
            NativeKind::Date64 => Scalar::Date64(self),
            NativeKind::Time64Microsecond => Scalar::Time64Microsecond(self),
            NativeKind::Time64Nanosecond => Scalar::Time64Nanosecond(self),
            NativeKind::TimestampSecond => Scalar::TimestampSecond(self),
            NativeKind::TimestampMillisecond => Scalar::TimestampMillisecond(self),
            NativeKind::TimestampMicrosecond => Scalar::TimestampMicrosecond(self),
            NativeKind::TimestampNanosecond => Scalar::TimestampNanosecond(self),
            _ => unreached(),
        }
    }
}

impl NativeValue for u8 {
    open spec fn as_int(self) -> int {
        self as int
    }

    open spec fn handles(k: NativeKind) -> bool {
        k == NativeKind::UInt8
    }

    fn eq_value(self, other: Self) -> (r: bool) {
        self == other
    }

    fn of_scalar(s: &Scalar) -> (v: Self) {
        match s {
            Scalar::UInt8(v) => *v,
            _ => unreached(),
        }
    }

    fn to_scalar(self, k: NativeKind) -> (s: Scalar) {
        match k {
            NativeKind::UInt8 => Scalar::UInt8(self),
            _ => unreached(),
        }
    }
}

impl NativeValue for u16 {
    open spec fn as_int(self) -> int {
        self as int
    }

    open spec fn handles(k: NativeKind) -> bool {
        k == NativeKind::UInt16
    }

    fn eq_value(self, other: Self) -> (r: bool) {
        self == other
    }

    fn of_scalar(s: &Scalar) -> (v: Self) {
        match s {
            Scalar::UInt16(v) => *v,
            _ => unreached(),
        }
    }

    fn to_scalar(self, k: NativeKind) -> (s: Scalar) {
        match k {
            NativeKind::UInt16 => Scalar::UInt16(self),
            _ => unreached(),
        }
    }
}

impl NativeValue for u32 {
    open spec fn as_int(self) -> int {
        self as int
    }

    open spec fn handles(k: NativeKind) -> bool {
        k == NativeKind::UInt32
    }

    fn eq_value(self, other: Self) -> (r: bool) {
        self == other
    }

    fn of_scalar(s: &Scalar) -> (v: Self) {
        match s {
            Scalar::UInt32(v) => *v,
            _ => unreached(),
        }
    }

    fn to_scalar(self, k: NativeKind) -> (s: Scalar) {
        match k {
            NativeKind::UInt32 => Scalar::UInt32(self),
            _ => unreached(),
        }
    }
}

impl NativeValue for u64 {
    open spec fn as_int(self) -> int {
        self as int
    }

    open spec fn handles(k: NativeKind) -> bool {
        k == NativeKind::UInt64
    }

    fn eq_value(self, other: Self) -> (r: bool) {
        self == other
    }

    fn of_scalar(s: &Scalar) -> (v: Self) {
        match s {
            Scalar::UInt64(v) => *v,
            _ => unreached(),
        }
    }

    fn to_scalar(self, k: NativeKind) -> (s: Scalar) {
        match k {
            NativeKind::UInt64 => Scalar::UInt64(self),
            _ => unreached(),
        }
    }
}

impl NativeValue for i128 {
    open spec fn as_int(self) -> int {
        self as int
    }

    open spec fn handles(k: NativeKind) -> bool {
        k == NativeKind::Decimal128
    }

    fn eq_value(self, other: Self) -> (r: bool) {
        self == other
    }

    fn of_scalar(s: &Scalar) -> (v: Self) {
        match s {
            Scalar::Decimal128(v) => *v,
            _ => unreached(),
        }
    }

    fn to_scalar(self, k: NativeKind) -> (s: Scalar) {
        match k {
            NativeKind::Decimal128 => Scalar::Decimal128(self),
            _ => unreached(),
        }
    }
}

impl NativeValue for crate::scalar::I256 {
    open spec fn as_int(self) -> int {
        crate::scalar::I256::as_int(self)
    }

    open spec fn handles(k: NativeKind) -> bool {
        k == NativeKind::Decimal256
    }

    fn eq_value(self, other: Self) -> (r: bool) {
        let r = self.lo == other.lo && self.hi == other.hi;
        proof {
            if crate::scalar::I256::as_int(self) == crate::scalar::I256::as_int(other) {
                crate::scalar::I256::lemma_as_int_injective(self, other);
            }
        }
        r
    }

    fn of_scalar(s: &Scalar) -> (v: Self) {
        match s {
            Scalar::Decimal256(v) => *v,
            _ => unreached(),
        }
    }

    fn to_scalar(self, k: NativeKind) -> (s: Scalar) {
        match k {
            NativeKind::Decimal256 => Scalar::Decimal256(self),
            _ => unreached(),
        }
    }
}

/// Distinct counting over a fixed-width column, storing native values
/// directly in a duplicate-free vector.
#[derive(Debug)]
pub struct NativeDistinctCountAccumulator<T: NativeValue> {
    pub kind: NativeKind,
    pub values: Vec<T>,
}

impl<T: NativeValue> NativeDistinctCountAccumulator<T> {
    /// The representation handles this accumulator's kind, and no value is
    /// stored twice.
    pub open spec fn wf(&self) -> bool {
        &&& T::handles(self.kind)
        &&& forall|i: int, j: int|
            0 <= i < j < self.values@.len() ==> self.values@[i].as_int() != self.values@[j].as_int()
    }

    /// The stored values as kind-tagged models, in storage order.
    pub open spec fn model_seq(&self) -> Seq<ValueModel> {
        self.values@.map_values(|v: T| native_model(self.kind, v.as_int()))
    }

    /// The distinct set observed so far.
    pub open spec fn distinct_set(&self) -> Set<ValueModel> {
        self.model_seq().to_set()
    }

    /// The stored models carry no duplicates.
    pub proof fn lemma_models_no_dup(&self)
        requires
            self.wf(),
        ensures
            self.model_seq().no_duplicates(),
    {
        assert forall|i: int, j: int|
            0 <= i < self.model_seq().len() && 0 <= j < self.model_seq().len() && i
                != j implies self.model_seq()[i] != self.model_seq()[j] by {
            if i < j {
                assert(self.values@[i].as_int() != self.values@[j].as_int());
            } else {
                assert(self.values@[j].as_int() != self.values@[i].as_int());
            }
        };
    }

    /// The cardinality of the distinct set is the storage length.
    pub proof fn lemma_count(&self)
        requires
            self.wf(),
        ensures
            self.distinct_set().finite(),
            self.distinct_set().len() == self.values@.len(),
    {
        broadcast use vstd::seq_lib::seq_to_set_is_finite;

        self.lemma_models_no_dup();
        self.model_seq().unique_seq_to_set();
    }

    /// A fresh, empty accumulator for a handled kind.
    pub fn new(kind: NativeKind) -> (r: Self)
        requires
            T::handles(kind),
        ensures
            r.wf(),
            r.kind == kind,
            r.distinct_set() == Set::<ValueModel>::empty(),
    {
        let r = NativeDistinctCountAccumulator { kind, values: Vec::new() };
        proof {
            assert(r.distinct_set() =~= Set::<ValueModel>::empty());
        }
        r
    }

    /// Whether a value with the same mathematical value is already stored.
    fn contains_value(&self, v: T) -> (r: bool)
        ensures
            r == exists|j: int|
                0 <= j < self.values@.len() && #[trigger] self.values@[j].as_int() == v.as_int(),
    {
        let mut i: usize = 0;
        while i < self.values.len()
            invariant
                i <= self.values@.len(),
                forall|j: int| 0 <= j < i ==> #[trigger] self.values@[j].as_int() != v.as_int(),
            decreases self.values@.len() - i,
        {
            if self.values[i].eq_value(v) {
                return true;
            }
            i = i + 1;
        }
        false
    }

    /// Inserts a value; a duplicate insert is a no-op.
    fn insert_value(&mut self, v: T)
        requires
            old(self).wf(),
        ensures
            final(self).wf(),
            final(self).kind == old(self).kind,
            final(self).distinct_set() == old(self).distinct_set().insert(
                native_model(old(self).kind, v.as_int()),
            ),
    {
        let ghost m = native_model(self.kind, v.as_int());
        if !self.contains_value(v) {
            self.values.push(v);
            proof {
                let s = self.model_seq();
                let olds = old(self).model_seq();
                assert(s =~= olds.push(m));
                assert(s.subrange(0, olds.len() as int) =~= olds);
                lemma_to_set_step(s, olds.len() as int);
                assert(s.subrange(0, s.len() as int) =~= s);
                assert(self.distinct_set() =~= old(self).distinct_set().insert(m));
            }
        } else {
            proof {
                let j = choose|j: int|
                    0 <= j < old(self).values@.len() && #[trigger] old(self).values@[j].as_int()
                        == v.as_int();
                assert(old(self).model_seq()[j] == m);
                assert(old(self).distinct_set().contains(m));
                assert(self.distinct_set() =~= old(self).distinct_set().insert(m));
            }
        }
    }

    /// Consumes one column batch: every non-null cell of the first column is
    /// inserted. Empty input is a no-op; a column of a different physical
    /// kind is rejected unchanged.
    pub fn update_batch(&mut self, values: &[Column]) -> (r: Result<(), AggError>)
        requires
            old(self).wf(),
            values@.len() > 0 ==> values@[0].wf(),
        ensures
            final(self).wf(),
            final(self).kind == old(self).kind,
            ({
                if values@.len() == 0 {
                    r is Ok && final(self).distinct_set() == old(self).distinct_set()
                } else if kind_of(values@[0].dtype@) == Some(old(self).kind) {
                    r is Ok && final(self).distinct_set() == old(self).distinct_set().union(
                        present_values(values@[0].cell_models()),
                    )
                } else {
                    r == Err::<(), AggError>(AggError::UnexpectedArrayType) && final(self).distinct_set() == old(self).distinct_set()
                }
            }),
    {
        if values.len() == 0 {
            return Ok(());
        }
        let c = &values[0];
        let kind_matches = match c.dtype.native_kind() {
            Some(k) => k == self.kind,
            None => false,
        };
        if !kind_matches {
            return Err(AggError::UnexpectedArrayType);
        }
        let ghost cm = c.cell_models();
        proof {
            assert(crate::column::present_values(cm.subrange(0, 0)) =~= Set::<ValueModel>::empty());
            assert(old(self).distinct_set().union(present_values(cm.subrange(0, 0))) =~= old(
                self,
            ).distinct_set());
        }
        let mut i: usize = 0;
        while i < c.cells.len()
            invariant
                self.wf(),
                self.kind == old(self).kind,
                c.wf(),
                kind_of(c.dtype@) == Some(self.kind),
                cm == c.cell_models(),
                i <= c.cells@.len(),
                cm.len() == c.cells@.len(),
                self.distinct_set() == old(self).distinct_set().union(
                    present_values(cm.subrange(0, i as int)),
                ),
            decreases c.cells@.len() - i,
        {
            match &c.cells[i] {
                Some(s) => {
                    proof {
                        assert(c.cells@[i as int] matches Some(x) && x@ == s@);
                        lemma_cell_matches_kind(s@, c.dtype@, self.kind);
                        assert(T::handles(self.kind) && scalar_is_kind(s@, self.kind));
                        lemma_native_model_roundtrip(s@, self.kind);
                    }
                    let v = T::of_scalar(s);
                    self.insert_value(v);
                    proof {
                        assert(cm[i as int] == Some(s@));
                        crate::column::lemma_present_values_step(cm, i as int);
                        assert(self.distinct_set() =~= old(self).distinct_set().union(
                            present_values(cm.subrange(0, i + 1 as int)),
                        ));
                    }
                },
                None => {
                    proof {
                        assert(cm[i as int] is None);
                        crate::column::lemma_present_values_step(cm, i as int);
                    }
                },
            }
            i = i + 1;
        }
        proof {
            assert(cm.subrange(0, cm.len() as int) =~= cm);
        }
        Ok(())
    }

    /// Consumes the single state column of a merge step: every element of
    /// every present row is inserted. Empty input is a no-op; more than one
    /// state column breaks the transfer protocol; a state column of a
    /// different physical kind is rejected unchanged.
    pub fn merge_batch(&mut self, states: &[ListColumn]) -> (r: Result<(), AggError>)
        requires
            old(self).wf(),
            states@.len() > 0 ==> states@[0].wf(),
        ensures
            final(self).wf(),
            final(self).kind == old(self).kind,
            ({
                if states@.len() == 0 {
                    r is Ok && final(self).distinct_set() == old(self).distinct_set()
                } else if states@.len() > 1 {
                    r == Err::<(), AggError>(AggError::MultipleStateArrays) && final(self).distinct_set() == old(self).distinct_set()
                } else if kind_of(states@[0].element_type@) == Some(old(self).kind) {
                    r is Ok && final(self).distinct_set() == old(self).distinct_set().union(
                        states@[0].merged_values(),
                    )
                } else {
                    r == Err::<(), AggError>(AggError::UnexpectedArrayType) && final(self).distinct_set() == old(self).distinct_set()
                }
            }),
    {
        if states.len() == 0 {
            return Ok(());
        }
        if states.len() > 1 {
            return Err(AggError::MultipleStateArrays);
        }
        let lc = &states[0];
        let kind_matches = match lc.element_type.native_kind() {
            Some(k) => k == self.kind,
            None => false,
        };
        if !kind_matches {
            return Err(AggError::UnexpectedArrayType);
        }
        let ghost rows = lc.rows@;
        proof {
            assert(crate::column::state_values(rows.subrange(0, 0)) =~= Set::<ValueModel>::empty());
            assert(old(self).distinct_set().union(crate::column::state_values(rows.subrange(0, 0)))
                =~= old(self).distinct_set());
        }
        let mut i: usize = 0;
        while i < lc.rows.len()
            invariant
                self.wf(),
                self.kind == old(self).kind,
                lc.wf(),
                kind_of(lc.element_type@) == Some(self.kind),
                rows == lc.rows@,
                i <= rows.len(),
                self.distinct_set() == old(self).distinct_set().union(
                    crate::column::state_values(rows.subrange(0, i as int)),
                ),
            decreases rows.len() - i,
        {
            let ghost set_before_row = self.distinct_set();
            match &lc.rows[i] {
                Some(lv) => {
                    proof {
                        assert(rows[i as int] matches Some(x) && x == *lv);
                        assert(lv.wf() && lv.element_type@ == lc.element_type@);
                    }
                    let vm = Ghost(lv.value_models());
                    let mut k: usize = 0;
                    proof {
                        assert(vm@.subrange(0, 0).to_set() =~= Set::<ValueModel>::empty());
                        assert(set_before_row.union(vm@.subrange(0, 0).to_set())
                            =~= set_before_row);
                    }
                    while k < lv.values.len()
                        invariant
                            self.wf(),
                            self.kind == old(self).kind,
                            lv.wf(),
                            lv.element_type@ == lc.element_type@,
                            kind_of(lc.element_type@) == Some(self.kind),
                            vm@ == lv.value_models(),
                            k <= lv.values@.len(),
                            vm@.len() == lv.values@.len(),
                            self.distinct_set() == set_before_row.union(
                                vm@.subrange(0, k as int).to_set(),
                            ),
                        decreases lv.values@.len() - k,
                    {
                        let s = &lv.values[k];
                        proof {
                            assert(crate::scalar::cell_matches(
                                lv.values@[k as int]@,
                                lv.element_type@,
                            ));
                            lemma_cell_matches_kind(s@, lc.element_type@, self.kind);
                            assert(T::handles(self.kind) && scalar_is_kind(s@, self.kind));
                            lemma_native_model_roundtrip(s@, self.kind);
                        }
                        let v = T::of_scalar(s);
                        self.insert_value(v);
                        proof {
                            assert(vm@[k as int] == s@);
                            lemma_to_set_step(vm@, k as int);
                            assert(self.distinct_set() =~= set_before_row.union(
                                vm@.subrange(0, k + 1 as int).to_set(),
                            ));
                        }
                        k = k + 1;
                    }
                    proof {
                        assert(vm@.subrange(0, vm@.len() as int) =~= vm@);
                        assert(lv.value_set() == vm@.to_set());
                        crate::column::ListColumn::lemma_state_values_step(rows, i as int);
                        assert(self.distinct_set() =~= old(self).distinct_set().union(
                            crate::column::state_values(rows.subrange(0, i + 1 as int)),
                        ));
                    }
                },
                None => {
                    proof {
                        assert(rows[i as int] is None);
                        crate::column::ListColumn::lemma_state_values_step(rows, i as int);
                        assert(self.distinct_set() =~= old(self).distinct_set().union(
                            crate::column::state_values(rows.subrange(0, i + 1 as int)),
                        ));
                    }
                },
            }
            i = i + 1;
        }
        proof {
            assert(rows.subrange(0, rows.len() as int) =~= rows);
        }
        Ok(())
    }

    /// Materializes the distinct set as a single list value of this kind's
    /// default declared type, in storage order, each element exactly once.
    pub fn state(&self) -> (r: Result<Vec<ListValue>, AggError>)
        requires
            self.wf(),
        ensures
            r matches Ok(st) && st@.len() == 1 && st@[0].wf() && st@[0].element_type@
                == kind_default_model(self.kind) && st@[0].value_set() == self.distinct_set()
                && st@[0].value_models().no_duplicates(),
    {
        let element_type = self.kind.default_type();
        let mut scalars: Vec<Scalar> = Vec::new();
        let mut i: usize = 0;
        while i < self.values.len()
            invariant
                self.wf(),
                i <= self.values@.len(),
                scalars@.map_values(|s: Scalar| s@) == self.model_seq().subrange(0, i as int),
                scalars@.len() == i,
            decreases self.values@.len() - i,
        {
            let sc = self.values[i].to_scalar(self.kind);
            scalars.push(sc);
            proof {
                assert(scalars@.map_values(|s: Scalar| s@) =~= self.model_seq().subrange(
                    0,
                    i + 1 as int,
                ));
            }
            i = i + 1;
        }
        proof {
            assert(self.model_seq().subrange(0, self.model_seq().len() as int) =~= self.model_seq());
        }
        let lv = ListValue { element_type, values: scalars };
        proof {
            assert forall|j: int| 0 <= j < lv.values@.len() implies crate::scalar::cell_matches(
                #[trigger] lv.values@[j]@,
                lv.element_type@,
            ) by {
                assert(lv.value_models()[j] == self.model_seq()[j]);
                lemma_native_default_matches(self.kind, self.values@[j].as_int());
            };
            assert(lv.value_models() == self.model_seq());
            self.lemma_models_no_dup();
        }
        Ok(vec![lv])
    }

    /// The distinct count, as a signed 64-bit integer scalar.
    pub fn evaluate(&self) -> (r: Result<Scalar, AggError>)
        requires
            self.wf(),
        ensures
            r matches Ok(s) && s is Int64 && (self.distinct_set().len() <= i64::MAX ==> s@
                == ValueModel::Int64(self.distinct_set().len() as int)),
    {
        proof {
            self.lemma_count();
        }
        Ok(Scalar::Int64(#[verifier::truncate] (self.values.len() as i64)))
    }

    /// The modeled footprint of the backing hash table at its target load
    /// factor: the accumulator itself, one entry and one control byte per
    /// expected bucket, and the fixed set overhead.
    pub open spec fn spec_size(&self) -> int {
        vstd::layout::size_of::<Self>() + vstd::layout::size_of::<T>() * spec_buckets(
            self.values@.len() as int,
        ) + spec_buckets(self.values@.len() as int) + vstd::layout::size_of::<Vec<T>>()
    }

    /// Reports the modeled heap footprint, saturating at the machine limit.
    pub fn size(&self) -> (r: usize)
        ensures
            r as int == if self.spec_size() <= usize::MAX as int {
                self.spec_size()
            } else {
                usize::MAX as int
            },
    {
        let buckets = estimated_buckets(self.values.len());
        let entries = mul_sat(core::mem::size_of::<T>(), buckets);
        let a = add_sat(core::mem::size_of::<Self>(), entries);
        let b = add_sat(a, buckets);
        add_sat(b, core::mem::size_of::<Vec<T>>())
    }
}

} // verus!

use count_distinct::AggError;
use count_distinct::Column;
use count_distinct::ColumnType;
use count_distinct::DistinctCount;
use count_distinct::ExprRef;
use count_distinct::ListColumn;
use count_distinct::Scalar;
use count_distinct::TimeUnit;

fn descriptor(dtype: &ColumnType) -> DistinctCount {
    DistinctCount::new(dtype.duplicate(), ExprRef { id: 7 }, String::from("c"))
}

fn count_of(result: Scalar) -> i64 {
    match result {
        Scalar::Int64(c) => c,
        other => panic!("unexpected evaluation result: {other:?}"),
    }
}

fn distinct_count(dtype: &ColumnType, cells: Vec<Option<Scalar>>) -> i64 {
    let mut accum = descriptor(dtype).create_accumulator().unwrap();
    let column = Column::new(dtype.duplicate(), cells).unwrap();
    accum.update_batch(&[column]).unwrap();
    count_of(accum.evaluate().unwrap())
}

/// Accumulates every batch in one accumulator of the given type and returns
/// its serialized state and count.
fn accumulate(
    dtype: &ColumnType,
    batches: &[Vec<Option<Scalar>>],
) -> (count_distinct::ListValue, i64) {
    let mut accum = descriptor(dtype).create_accumulator().unwrap();
    for cells in batches {
        let owned: Vec<Option<Scalar>> =
            cells.iter().map(|c| c.as_ref().map(|s| s.duplicate())).collect();
        let column = Column::new(dtype.duplicate(), owned).unwrap();
        accum.update_batch(&[column]).unwrap();
    }
    let mut states = accum.state().unwrap();
    let state = states.remove(0);
    (state, count_of(accum.evaluate().unwrap()))
}

/// Round trip: state() fed into a fresh accumulator's merge_batch reproduces
/// the original count exactly.
fn check_round_trip(dtype: &ColumnType, cells: Vec<Option<Scalar>>) {
    let (state, count) = accumulate(dtype, &[cells]);
    let mut fresh = descriptor(dtype).create_accumulator().unwrap();
    fresh.merge_batch(&[ListColumn::singleton(state)]).unwrap();
    assert_eq!(count_of(fresh.evaluate().unwrap()), count);
}

#[test]
fn round_trip_every_supported_type() {
    check_round_trip(
        &ColumnType::Int8,
        vec![Some(Scalar::Int8(1)), Some(Scalar::Int8(-1)), None],
    );
    check_round_trip(
        &ColumnType::Int16,
        vec![Some(Scalar::Int16(300)), Some(Scalar::Int16(300))],
    );
    check_round_trip(
        &ColumnType::Int32,
        vec![Some(Scalar::Int32(5)), Some(Scalar::Int32(6))],
    );
    check_round_trip(
        &ColumnType::Int64,
        vec![Some(Scalar::Int64(-9)), Some(Scalar::Int64(9))],
    );
    check_round_trip(&ColumnType::UInt8, vec![Some(Scalar::UInt8(255))]);
    check_round_trip(&ColumnType::UInt16, vec![Some(Scalar::UInt16(9))]);
    check_round_trip(&ColumnType::UInt32, vec![Some(Scalar::UInt32(9))]);
    check_round_trip(&ColumnType::UInt64, vec![Some(Scalar::UInt64(9))]);
    check_round_trip(
        &ColumnType::Decimal128(38, 10),
        vec![Some(Scalar::Decimal128(7)), Some(Scalar::Decimal128(-7))],
    );
    check_round_trip(
        &ColumnType::Decimal256(76, 10),
        vec![Some(Scalar::Decimal256(count_distinct::I256 { lo: 7, hi: -1 }))],
    );
    check_round_trip(
        &ColumnType::Date32,
        vec![Some(Scalar::Date32(19000)), Some(Scalar::Date32(19001))],
    );
    check_round_trip(&ColumnType::Date64, vec![Some(Scalar::Date64(1))]);
    check_round_trip(
        &ColumnType::Time32(TimeUnit::Second),
        vec![Some(Scalar::Time32Second(60))],
    );
    check_round_trip(
        &ColumnType::Time32(TimeUnit::Millisecond),
        vec![Some(Scalar::Time32Millisecond(1000))],
    );
    check_round_trip(
        &ColumnType::Time64(TimeUnit::Microsecond),
        vec![Some(Scalar::Time64Microsecond(1))],
    );
    check_round_trip(
        &ColumnType::Time64(TimeUnit::Nanosecond),
        vec![Some(Scalar::Time64Nanosecond(1))],
    );
    check_round_trip(
        &ColumnType::Timestamp(TimeUnit::Second, None),
        vec![Some(Scalar::TimestampSecond(1))],
    );
    check_round_trip(
        &ColumnType::Timestamp(TimeUnit::Millisecond, Some(String::from("UTC"))),
        vec![Some(Scalar::TimestampMillisecond(1))],
    );
    check_round_trip(
        &ColumnType::Timestamp(TimeUnit::Microsecond, None),
        vec![Some(Scalar::TimestampMicrosecond(1))],
    );
    check_round_trip(
        &ColumnType::Timestamp(TimeUnit::Nanosecond, None),
        vec![Some(Scalar::TimestampNanosecond(1))],
    );
    check_round_trip(
        &ColumnType::Float16,
        vec![Some(Scalar::Float16(0x3c00)), Some(Scalar::Float16(0xbc00))],
    );
    check_round_trip(
        &ColumnType::Float32,
        vec![
            Some(Scalar::Float32(1.5_f32.to_bits())),
            Some(Scalar::Float32(f32::NAN.to_bits())),
        ],
    );
    check_round_trip(
        &ColumnType::Float64,
        vec![
            Some(Scalar::Float64(1.5_f64.to_bits())),
            Some(Scalar::Float64(f64::NAN.to_bits())),
        ],
    );
    check_round_trip(
        &ColumnType::Utf8,
        vec![
            Some(Scalar::Utf8(String::from("a"))),
            Some(Scalar::Utf8(String::from("b"))),
            Some(Scalar::Utf8(String::from("a"))),
        ],
    );
    check_round_trip(
        &ColumnType::LargeUtf8,
        vec![Some(Scalar::LargeUtf8(String::from("wide")))],
    );
    check_round_trip(
        &ColumnType::Boolean,
        vec![Some(Scalar::Boolean(true)), Some(Scalar::Boolean(false))],
    );
    check_round_trip(
        &ColumnType::Binary,
        vec![Some(Scalar::Binary(vec![0, 1])), Some(Scalar::Binary(vec![0, 1, 2]))],
    );
    check_round_trip(&ColumnType::Null, vec![None, None]);
}

#[test]
fn merge_is_idempotent() {
    let dtype = ColumnType::Int32;
    let (state, count) = accumulate(
        &dtype,
        &[vec![Some(Scalar::Int32(1)), Some(Scalar::Int32(2)), None]],
    );
    assert_eq!(count, 2);

    let mut once = descriptor(&dtype).create_accumulator().unwrap();
    let twice_state = count_distinct::ListValue::new(
        state.element_type.duplicate(),
        state.values.iter().map(|s| s.duplicate()).collect(),
    )
    .unwrap();
    once.merge_batch(&[ListColumn::singleton(twice_state)]).unwrap();
    let after_once = count_of(once.evaluate().unwrap());

    once.merge_batch(&[ListColumn::singleton(state)]).unwrap();
    let after_twice = count_of(once.evaluate().unwrap());

    assert_eq!(after_once, 2);
    assert_eq!(after_twice, after_once);
}

#[test]
fn merge_is_commutative_and_associative() {
    let dtype = ColumnType::UInt16;
    let whole: Vec<Option<Scalar>> = (0..30_u16)
        .map(|v| {
            if v % 5 == 0 {
                None
            } else {
                Some(Scalar::UInt16(v % 7))
            }
        })
        .collect();
    let (_, whole_count) = accumulate(&dtype, &[whole.clone()]);

    // Three different groupings of the same rows, merged in different
    // orders, all reach the whole dataset's count.
    let part_a: Vec<Option<Scalar>> = whole[0..10].to_vec();
    let part_b: Vec<Option<Scalar>> = whole[10..17].to_vec();
    let part_c: Vec<Option<Scalar>> = whole[17..30].to_vec();

    for order in [[0, 1, 2], [2, 0, 1], [1, 2, 0]] {
        let parts = [part_a.clone(), part_b.clone(), part_c.clone()];
        let mut merged = descriptor(&dtype).create_accumulator().unwrap();
        for idx in order {
            let (state, _) = accumulate(&dtype, &[parts[idx].clone()]);
            merged.merge_batch(&[ListColumn::singleton(state)]).unwrap();
        }
        assert_eq!(count_of(merged.evaluate().unwrap()), whole_count);
    }
}

#[test]
fn merge_accepts_multi_row_state_columns_with_null_rows() {
    let dtype = ColumnType::Int64;
    let (s1, _) = accumulate(&dtype, &[vec![Some(Scalar::Int64(1)), Some(Scalar::Int64(2))]]);
    let (s2, _) = accumulate(&dtype, &[vec![Some(Scalar::Int64(2)), Some(Scalar::Int64(3))]]);
    let states = ListColumn::new(dtype.duplicate(), vec![Some(s1), None, Some(s2)]).unwrap();

    let mut merged = descriptor(&dtype).create_accumulator().unwrap();
    merged.merge_batch(&[states]).unwrap();
    assert_eq!(count_of(merged.evaluate().unwrap()), 3);
}

#[test]
fn dispatch_is_total() {
    let every_type = vec![
        ColumnType::Int8,
        ColumnType::Int16,
        ColumnType::Int32,
        ColumnType::Int64,
        ColumnType::UInt8,
        ColumnType::UInt16,
        ColumnType::UInt32,
        ColumnType::UInt64,
        ColumnType::Decimal128(20, 2),
        ColumnType::Decimal256(40, 4),
        ColumnType::Date32,
        ColumnType::Date64,
        ColumnType::Time32(TimeUnit::Second),
        ColumnType::Time32(TimeUnit::Millisecond),
        ColumnType::Time32(TimeUnit::Nanosecond),
        ColumnType::Time64(TimeUnit::Microsecond),
        ColumnType::Time64(TimeUnit::Nanosecond),
        ColumnType::Time64(TimeUnit::Second),
        ColumnType::Timestamp(TimeUnit::Second, None),
        ColumnType::Timestamp(TimeUnit::Millisecond, Some(String::from("+01:00"))),
        ColumnType::Timestamp(TimeUnit::Microsecond, None),
        ColumnType::Timestamp(TimeUnit::Nanosecond, None),
        ColumnType::Float16,
        ColumnType::Float32,
        ColumnType::Float64,
        ColumnType::Utf8,
        ColumnType::LargeUtf8,
        ColumnType::Boolean,
        ColumnType::Binary,
        ColumnType::Null,
    ];
    for dtype in every_type {
        let mut accum = descriptor(&dtype).create_accumulator().unwrap();
        let empty = Column::new(dtype.duplicate(), Vec::new()).unwrap();
        accum.update_batch(&[empty]).unwrap();
        assert_eq!(count_of(accum.evaluate().unwrap()), 0);
        assert!(accum.size() > 0);
        let states = accum.state().unwrap();
        assert_eq!(states.len(), 1);
        assert!(states[0].values.is_empty());
    }
}

#[test]
fn update_rejects_mismatched_column() {
    let mut accum = descriptor(&ColumnType::Int32).create_accumulator().unwrap();
    let wrong = Column::new(ColumnType::Int64, vec![Some(Scalar::Int64(1))]).unwrap();
    assert_eq!(
        accum.update_batch(&[wrong]),
        Err(AggError::UnexpectedArrayType)
    );
    assert_eq!(count_of(accum.evaluate().unwrap()), 0);
}

#[test]
fn merge_rejects_multiple_state_columns() {
    let dtype = ColumnType::Int32;
    let (s1, _) = accumulate(&dtype, &[vec![Some(Scalar::Int32(1))]]);
    let (s2, _) = accumulate(&dtype, &[vec![Some(Scalar::Int32(2))]]);
    let mut accum = descriptor(&dtype).create_accumulator().unwrap();
    let r = accum.merge_batch(&[ListColumn::singleton(s1), ListColumn::singleton(s2)]);
    assert_eq!(r, Err(AggError::MultipleStateArrays));
    assert_eq!(count_of(accum.evaluate().unwrap()), 0);
}

#[test]
fn merge_rejects_mismatched_element_type() {
    let (state, _) = accumulate(&ColumnType::Utf8, &[vec![Some(Scalar::Utf8(String::from("x")))]]);
    let mut accum = descriptor(&ColumnType::LargeUtf8).create_accumulator().unwrap();
    let r = accum.merge_batch(&[ListColumn::singleton(state)]);
    assert_eq!(r, Err(AggError::UnexpectedArrayType));
}

#[test]
fn distinct_nan_payloads_count_separately() {
    // Bit-identical NaN payloads collapse to one value; a different payload
    // is a different value, as is a negative zero next to a positive zero.
    let nan_a = f64::NAN.to_bits();
    let nan_b = nan_a ^ 1;
    let count = distinct_count(
        &ColumnType::Float64,
        vec![
            Some(Scalar::Float64(nan_a)),
            Some(Scalar::Float64(nan_a)),
            Some(Scalar::Float64(nan_b)),
            Some(Scalar::Float64(0.0_f64.to_bits())),
            Some(Scalar::Float64((-0.0_f64).to_bits())),
        ],
    );
    assert_eq!(count, 4);
}

#[test]
fn text_distinct_by_content() {
    let count = distinct_count(
        &ColumnType::Utf8,
        vec![
            Some(Scalar::Utf8(String::from("alpha"))),
            Some(Scalar::Utf8(String::from("beta"))),
            None,
            Some(Scalar::Utf8(String::from("alpha"))),
            Some(Scalar::Utf8(String::new())),
        ],
    );
    assert_eq!(count, 3);
}

#[test]
fn binary_distinct_by_bytes() {
    let count = distinct_count(
        &ColumnType::Binary,
        vec![
            Some(Scalar::Binary(vec![1, 2])),
            Some(Scalar::Binary(vec![1, 2])),
            Some(Scalar::Binary(vec![1])),
            Some(Scalar::Binary(Vec::new())),
            None,
        ],
    );
    assert_eq!(count, 3);
}

#[test]
fn all_null_text_column_counts_zero() {
    let count = distinct_count(&ColumnType::Utf8, vec![None, None, None]);
    assert_eq!(count, 0);
}

#[test]
fn size_grows_with_content() {
    let dtype = ColumnType::Utf8;
    let mut accum = descriptor(&dtype).create_accumulator().unwrap();
    let empty_size = accum.size();
    let cells = vec![Some(Scalar::Utf8(String::from("a long distinct payload")))];
    let column = Column::new(dtype.duplicate(), cells).unwrap();
    accum.update_batch(&[column]).unwrap();
    assert!(accum.size() > empty_size);
}

#[test]
fn descriptor_metadata() {
    let d = DistinctCount::new(
        ColumnType::Int32,
        ExprRef { id: 3 },
        String::from("col_a"),
    );
    assert_eq!(d.name(), "col_a");

    let f = d.field().unwrap();
    assert_eq!(f.name, "col_a");
    assert!(matches!(f.dtype, ColumnType::Int64));
    assert!(f.nullable);

    let sf = d.state_fields().unwrap();
    assert_eq!(sf.len(), 1);
    assert_eq!(sf[0].name, "col_a[count distinct]");
    assert!(matches!(sf[0].item.dtype, ColumnType::Int32));
    assert!(sf[0].item.nullable);
    assert!(!sf[0].nullable);

    let exprs = d.expressions();
    assert_eq!(exprs.len(), 1);
    assert_eq!(exprs[0].id, 3);
}

#[test]
fn descriptor_equality() {
    let a = DistinctCount::new(ColumnType::Int32, ExprRef { id: 3 }, String::from("c"));
    let b = DistinctCount::new(ColumnType::Int32, ExprRef { id: 3 }, String::from("c"));
    let other_type = DistinctCount::new(ColumnType::Int64, ExprRef { id: 3 }, String::from("c"));
    let other_expr = DistinctCount::new(ColumnType::Int32, ExprRef { id: 4 }, String::from("c"));
    let other_name = DistinctCount::new(ColumnType::Int32, ExprRef { id: 3 }, String::from("d"));
    assert!(a.eq(&b));
    assert!(!a.eq(&other_type));
    assert!(!a.eq(&other_expr));
    assert!(!a.eq(&other_name));
}

#[test]
fn timestamp_state_drops_timezone_annotation() {
    // A timestamp accumulator materializes its state under the kind's
    // default declared type: the unit is kept, the timezone annotation is
    // not.
    let dtype = ColumnType::Timestamp(TimeUnit::Second, Some(String::from("UTC")));
    let (state, count) = accumulate(&dtype, &[vec![Some(Scalar::TimestampSecond(5))]]);
    assert_eq!(count, 1);
    assert!(matches!(
        state.element_type,
        ColumnType::Timestamp(TimeUnit::Second, None)
    ));
}

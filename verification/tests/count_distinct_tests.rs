use count_distinct::Column;
use count_distinct::ColumnType;
use count_distinct::DistinctCount;
use count_distinct::ExprRef;
use count_distinct::ListValue;
use count_distinct::Scalar;
use count_distinct::I256;

fn run_update_batch(column: Column) -> (Vec<ListValue>, Scalar) {
    let agg = DistinctCount::new(
        column.dtype.duplicate(),
        ExprRef { id: 0 },
        String::from("__col_name__"),
    );
    let mut accum = agg.create_accumulator().unwrap();
    accum.update_batch(&[column]).unwrap();
    (accum.state().unwrap(), accum.evaluate().unwrap())
}

fn run_update(dtype: ColumnType, cells: Vec<Option<Scalar>>) -> (Vec<ListValue>, Scalar) {
    let agg = DistinctCount::new(
        dtype.duplicate(),
        ExprRef { id: 0 },
        String::from("__col_name__"),
    );
    let mut accum = agg.create_accumulator().unwrap();
    let column = Column::new(dtype, cells).unwrap();
    accum.update_batch(&[column]).unwrap();
    (accum.state().unwrap(), accum.evaluate().unwrap())
}

fn int_cells(values: &[Option<i64>], make: fn(i64) -> Scalar) -> Vec<Option<Scalar>> {
    values.iter().map(|v| v.map(make)).collect()
}

fn numeric_inputs() -> Vec<Option<i64>> {
    vec![
        Some(1),
        Some(1),
        None,
        Some(3),
        Some(2),
        None,
        Some(2),
        Some(3),
        Some(1),
    ]
}

fn check_numeric(dtype: ColumnType, make: fn(i64) -> Scalar, extract: fn(&Scalar) -> i64) {
    let cells = int_cells(&numeric_inputs(), make);
    let column = Column::new(dtype, cells).unwrap();
    let (states, result) = run_update_batch(column);

    let mut state_vec: Vec<i64> = states[0].values.iter().map(extract).collect();
    state_vec.sort();

    assert_eq!(states.len(), 1);
    assert_eq!(state_vec, vec![1, 2, 3]);
    assert_eq!(result, Scalar::Int64(3));
}

#[test]
fn count_distinct_update_batch_i8() {
    check_numeric(
        ColumnType::Int8,
        |v| Scalar::Int8(v as i8),
        |s| match s {
            Scalar::Int8(v) => *v as i64,
            other => panic!("unexpected scalar: {other:?}"),
        },
    );
}

#[test]
fn count_distinct_update_batch_i16() {
    check_numeric(
        ColumnType::Int16,
        |v| Scalar::Int16(v as i16),
        |s| match s {
            Scalar::Int16(v) => *v as i64,
            other => panic!("unexpected scalar: {other:?}"),
        },
    );
}

#[test]
fn count_distinct_update_batch_i32() {
    check_numeric(
        ColumnType::Int32,
        |v| Scalar::Int32(v as i32),
        |s| match s {
            Scalar::Int32(v) => *v as i64,
            other => panic!("unexpected scalar: {other:?}"),
        },
    );
}

#[test]
fn count_distinct_update_batch_i64() {
    check_numeric(
        ColumnType::Int64,
        Scalar::Int64,
        |s| match s {
            Scalar::Int64(v) => *v,
            other => panic!("unexpected scalar: {other:?}"),
        },
    );
}

#[test]
fn count_distinct_update_batch_u8() {
    check_numeric(
        ColumnType::UInt8,
        |v| Scalar::UInt8(v as u8),
        |s| match s {
            Scalar::UInt8(v) => *v as i64,
            other => panic!("unexpected scalar: {other:?}"),
        },
    );
}

#[test]
fn count_distinct_update_batch_u16() {
    check_numeric(
        ColumnType::UInt16,
        |v| Scalar::UInt16(v as u16),
        |s| match s {
            Scalar::UInt16(v) => *v as i64,
            other => panic!("unexpected scalar: {other:?}"),
        },
    );
}

#[test]
fn count_distinct_update_batch_u32() {
    check_numeric(
        ColumnType::UInt32,
        |v| Scalar::UInt32(v as u32),
        |s| match s {
            Scalar::UInt32(v) => *v as i64,
            other => panic!("unexpected scalar: {other:?}"),
        },
    );
}

#[test]
fn count_distinct_update_batch_u64() {
    check_numeric(
        ColumnType::UInt64,
        |v| Scalar::UInt64(v as u64),
        |s| match s {
            Scalar::UInt64(v) => *v as i64,
            other => panic!("unexpected scalar: {other:?}"),
        },
    );
}

fn check_floating_point_f32(values: Vec<Option<f32>>) {
    let cells: Vec<Option<Scalar>> = values
        .iter()
        .map(|v| v.map(|x| Scalar::Float32(x.to_bits())))
        .collect();
    let column = Column::new(ColumnType::Float32, cells).unwrap();
    let (states, result) = run_update_batch(column);

    let mut state_vec: Vec<f32> = states[0]
        .values
        .iter()
        .map(|s| match s {
            Scalar::Float32(bits) => f32::from_bits(*bits),
            other => panic!("unexpected scalar: {other:?}"),
        })
        .collect();
    state_vec.sort_by(|a, b| a.total_cmp(b));

    let nan_idx = state_vec.len() - 1;
    assert_eq!(states.len(), 1);
    assert_eq!(
        &state_vec[..nan_idx],
        vec![
            f32::NEG_INFINITY,
            -4.5,
            1.0e-38_f32,
            1.0,
            2.0,
            3.0,
            f32::INFINITY
        ]
    );
    assert!(state_vec[nan_idx].is_nan());
    assert_eq!(result, Scalar::Int64(8));
}

#[test]
fn count_distinct_update_batch_f32() {
    check_floating_point_f32(vec![
        Some(f32::INFINITY),
        Some(f32::NAN),
        Some(1.0),
        Some(1.0e-38_f32),
        Some(1.0),
        Some(f32::INFINITY),
        None,
        Some(3.0),
        Some(-4.5),
        Some(2.0),
        None,
        Some(2.0),
        Some(3.0),
        Some(f32::NEG_INFINITY),
        Some(1.0),
        Some(f32::NAN),
        Some(f32::NEG_INFINITY),
    ]);
}

fn check_floating_point_f64(values: Vec<Option<f64>>) {
    let cells: Vec<Option<Scalar>> = values
        .iter()
        .map(|v| v.map(|x| Scalar::Float64(x.to_bits())))
        .collect();
    let column = Column::new(ColumnType::Float64, cells).unwrap();
    let (states, result) = run_update_batch(column);

    let mut state_vec: Vec<f64> = states[0]
        .values
        .iter()
        .map(|s| match s {
            Scalar::Float64(bits) => f64::from_bits(*bits),
            other => panic!("unexpected scalar: {other:?}"),
        })
        .collect();
    state_vec.sort_by(|a, b| a.total_cmp(b));

    let nan_idx = state_vec.len() - 1;
    assert_eq!(states.len(), 1);
    assert_eq!(
        &state_vec[..nan_idx],
        vec![
            f64::NEG_INFINITY,
            -4.5,
            1.0e-308_f64,
            1.0,
            2.0,
            3.0,
            f64::INFINITY
        ]
    );
    assert!(state_vec[nan_idx].is_nan());
    assert_eq!(result, Scalar::Int64(8));
}

#[test]
fn count_distinct_update_batch_f64() {
    check_floating_point_f64(vec![
        Some(f64::INFINITY),
        Some(f64::NAN),
        Some(1.0),
        Some(1.0e-308_f64),
        Some(1.0),
        Some(f64::INFINITY),
        None,
        Some(3.0),
        Some(-4.5),
        Some(2.0),
        None,
        Some(2.0),
        Some(3.0),
        Some(f64::NEG_INFINITY),
        Some(1.0),
        Some(f64::NAN),
        Some(f64::NEG_INFINITY),
    ]);
}

#[test]
fn count_distinct_update_batch_i256() {
    let small = |v: u128| I256 { lo: v, hi: 0 };
    let values: Vec<Option<I256>> = vec![
        Some(small(1)),
        Some(small(1)),
        None,
        Some(small(3)),
        Some(small(2)),
        None,
        Some(small(2)),
        Some(small(3)),
        Some(small(1)),
    ];
    let cells: Vec<Option<Scalar>> = values.iter().map(|v| v.map(Scalar::Decimal256)).collect();
    let column = Column::new(ColumnType::Decimal256(76, 10), cells).unwrap();
    let (states, result) = run_update_batch(column);

    let mut state_vec: Vec<u128> = states[0]
        .values
        .iter()
        .map(|s| match s {
            Scalar::Decimal256(v) => {
                assert_eq!(v.hi, 0);
                v.lo
            },
            other => panic!("unexpected scalar: {other:?}"),
        })
        .collect();
    state_vec.sort();

    assert_eq!(states.len(), 1);
    assert_eq!(state_vec, vec![1, 2, 3]);
    assert_eq!(result, Scalar::Int64(3));
}

#[test]
fn count_distinct_update_batch_boolean() {
    let get_count = |data: Vec<Option<bool>>| -> (Vec<bool>, i64) {
        let cells: Vec<Option<Scalar>> = data.iter().map(|v| v.map(Scalar::Boolean)).collect();
        let column = Column::new(ColumnType::Boolean, cells).unwrap();
        let (states, result) = run_update_batch(column);
        let mut state_vec: Vec<bool> = states[0]
            .values
            .iter()
            .map(|s| match s {
                Scalar::Boolean(b) => *b,
                other => panic!("unexpected scalar: {other:?}"),
            })
            .collect();
        state_vec.sort();

        let count = match result {
            Scalar::Int64(c) => c,
            scalar => panic!("Found non int64 scalar value from count: {scalar:?}"),
        };
        (state_vec, count)
    };

    let zero_count_values: Vec<Option<bool>> = Vec::new();

    let one_count_values = vec![Some(false), Some(false)];
    let one_count_values_with_null = vec![Some(true), Some(true), None, None];

    let two_count_values = vec![Some(true), Some(false), Some(true), Some(false), Some(true)];
    let two_count_values_with_null = vec![
        Some(true),
        Some(false),
        None,
        None,
        Some(true),
        Some(false),
    ];

    assert_eq!(get_count(zero_count_values), (Vec::<bool>::new(), 0));
    assert_eq!(get_count(one_count_values), (vec![false], 1));
    assert_eq!(get_count(one_count_values_with_null), (vec![true], 1));
    assert_eq!(get_count(two_count_values), (vec![false, true], 2));
    assert_eq!(get_count(two_count_values_with_null), (vec![false, true], 2));
}

#[test]
fn count_distinct_update_batch_all_nulls() {
    let cells: Vec<Option<Scalar>> = vec![None, None, None, None];
    let column = Column::new(ColumnType::Int32, cells).unwrap();
    let (states, result) = run_update_batch(column);

    assert_eq!(states.len(), 1);
    assert!(states[0].values.is_empty());
    assert_eq!(result, Scalar::Int64(0));
}

#[test]
fn count_distinct_update_batch_empty() {
    let column = Column::new(ColumnType::Int32, Vec::new()).unwrap();
    let (states, result) = run_update_batch(column);

    assert_eq!(states.len(), 1);
    assert!(states[0].values.is_empty());
    assert_eq!(result, Scalar::Int64(0));
}

#[test]
fn count_distinct_update() {
    let (states, result) = run_update(
        ColumnType::Int32,
        vec![
            Some(Scalar::Int32(-1)),
            Some(Scalar::Int32(5)),
            Some(Scalar::Int32(-1)),
            Some(Scalar::Int32(5)),
            Some(Scalar::Int32(-1)),
            Some(Scalar::Int32(-1)),
            Some(Scalar::Int32(2)),
        ],
    );
    assert_eq!(states.len(), 1);
    assert_eq!(result, Scalar::Int64(3));

    let (states, result) = run_update(
        ColumnType::UInt64,
        vec![
            Some(Scalar::UInt64(1)),
            Some(Scalar::UInt64(5)),
            Some(Scalar::UInt64(1)),
            Some(Scalar::UInt64(5)),
            Some(Scalar::UInt64(1)),
            Some(Scalar::UInt64(1)),
            Some(Scalar::UInt64(2)),
        ],
    );
    assert_eq!(states.len(), 1);
    assert_eq!(result, Scalar::Int64(3));
}

#[test]
fn count_distinct_update_with_nulls() {
    // The first three rows carry values and are accumulated; the null rows
    // contribute nothing.
    let (states, result) = run_update(
        ColumnType::Int32,
        vec![
            Some(Scalar::Int32(-1)),
            Some(Scalar::Int32(-1)),
            Some(Scalar::Int32(-2)),
            Some(Scalar::Int32(-1)),
            None,
            None,
        ],
    );
    assert_eq!(states.len(), 1);
    assert_eq!(result, Scalar::Int64(2));

    let (states, result) = run_update(
        ColumnType::UInt64,
        vec![
            Some(Scalar::UInt64(1)),
            Some(Scalar::UInt64(1)),
            Some(Scalar::UInt64(2)),
            Some(Scalar::UInt64(1)),
            None,
            None,
        ],
    );
    assert_eq!(states.len(), 1);
    assert_eq!(result, Scalar::Int64(2));
}

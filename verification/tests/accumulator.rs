use colsink::accumulator::{
    add_row_json, Accumulator, Error, Rows, MAX_ROWS,
};
use colsink::engine::json::{JsonNum, JsonValue};
use colsink::engine::schema::{make_builders, Column, ColumnType, Field, ScalarType, Schema};

fn field(name: &str, ty: ColumnType, nullable: bool) -> Field {
    Field { name: name.to_string(), ty, nullable }
}

fn id_tags_schema() -> Schema {
    Schema {
        fields: vec![
            field("id", ColumnType::Scalar(ScalarType::Int64), false),
            field("tags", ColumnType::List(ScalarType::Str), true),
        ],
    }
}

fn obj(pairs: Vec<(&str, JsonValue)>) -> JsonValue {
    JsonValue::Obj(pairs.into_iter().map(|(k, v)| (k.to_string(), v)).collect())
}

fn num(v: u64) -> JsonValue {
    JsonValue::Num(JsonNum::PosInt(v))
}

fn s(v: &str) -> JsonValue {
    JsonValue::Str(v.to_string())
}

#[test]
fn scenario_two_accepted_one_missing_id() {
    let mut acc = Accumulator::new(id_tags_schema());
    let rows = vec![
        obj(vec![("id", num(1)), ("tags", JsonValue::Arr(vec![s("x"), s("y")]))]),
        obj(vec![("id", num(2))]),
        obj(vec![("tags", JsonValue::Arr(vec![s("z")]))]),
    ];
    let rejected = acc.add_rows(Rows::Json(rows));
    assert_eq!(rejected.len(), 1);
    assert_eq!(rejected[0].1, Error::MissingField("id".to_string()));
    assert_eq!(acc.rows_count, 2);
    assert_eq!(acc.builders[0].length(), 2);
    assert_eq!(acc.builders[1].length(), 2);
    match &acc.builders[0] {
        Column::I64(v) => assert_eq!(v, &vec![Some(1), Some(2)]),
        _ => panic!("wrong column kind"),
    }
    match &acc.builders[1] {
        Column::ListStr(v) => {
            assert_eq!(v, &vec![Some(vec!["x".to_string(), "y".to_string()]), None])
        }
        _ => panic!("wrong column kind"),
    }
}

#[test]
fn missing_non_nullable_leaves_builders_untouched() {
    let mut acc = Accumulator::new(id_tags_schema());
    let rejected = acc.add_rows(Rows::Json(vec![obj(vec![(
        "tags",
        JsonValue::Arr(vec![s("a")]),
    )])]));
    assert_eq!(rejected.len(), 1);
    assert_eq!(rejected[0].1, Error::MissingField("id".to_string()));
    assert_eq!(acc.rows_count, 0);
    assert_eq!(acc.builders[0].length(), 0);
    assert_eq!(acc.builders[1].length(), 0);
}

#[test]
fn all_valid_rows_accepted() {
    let mut acc = Accumulator::new(id_tags_schema());
    let rows: Vec<JsonValue> = (0..5).map(|k| obj(vec![("id", num(k))])).collect();
    let rejected = acc.add_rows(Rows::Json(rows));
    assert!(rejected.is_empty());
    assert_eq!(acc.rows_count, 5);
    assert_eq!(acc.builders[0].length(), 5);
    assert_eq!(acc.builders[1].length(), 5);
}

#[test]
fn mixed_type_array_rejected() {
    let mut acc = Accumulator::new(id_tags_schema());
    let rejected = acc.add_rows(Rows::Json(vec![obj(vec![
        ("id", num(1)),
        ("tags", JsonValue::Arr(vec![s("a"), num(1)])),
    ])]));
    assert_eq!(rejected.len(), 1);
    assert_eq!(
        rejected[0].1,
        Error::HomogeneousArrayExpected("tags".to_string())
    );
    assert_eq!(acc.rows_count, 0);
    assert_eq!(acc.builders[0].length(), 0);
}

#[test]
fn non_object_row_rejected() {
    let mut acc = Accumulator::new(id_tags_schema());
    let rejected = acc.add_rows(Rows::Json(vec![num(3)]));
    assert_eq!(rejected.len(), 1);
    assert_eq!(rejected[0].1, Error::ObjectExpected);
}

#[test]
fn wrong_scalar_type_rejected() {
    let mut acc = Accumulator::new(id_tags_schema());
    let rejected = acc.add_rows(Rows::Json(vec![obj(vec![("id", s("one"))])]));
    assert_eq!(rejected.len(), 1);
    assert_eq!(rejected[0].1, Error::TypeMismatch("id".to_string()));
}

#[test]
fn take_batch_hands_out_window_and_resets() {
    let mut acc = Accumulator::new(id_tags_schema());
    let rows: Vec<JsonValue> = (0..3).map(|k| obj(vec![("id", num(k))])).collect();
    let rejected = acc.add_rows(Rows::Json(rows));
    assert!(rejected.is_empty());
    let batch = acc.take_batch();
    assert_eq!(batch.len(), 2);
    assert_eq!(batch[0].length(), 3);
    assert_eq!(batch[1].length(), 3);
    assert_eq!(acc.rows_count, 0);
    assert_eq!(acc.builders[0].length(), 0);
    assert_eq!(acc.builders[1].length(), 0);
}

#[test]
fn threshold_triggers_flush_need() {
    let schema = Schema {
        fields: vec![field("id", ColumnType::Scalar(ScalarType::Int64), false)],
    };
    let mut acc = Accumulator::new(schema);
    let rows: Vec<JsonValue> = (0..MAX_ROWS as u64)
        .map(|k| obj(vec![("id", num(k))]))
        .collect();
    let rejected = acc.add_rows(Rows::Json(rows));
    assert!(rejected.is_empty());
    assert!(acc.needs_flush());
    let batch = acc.take_batch();
    assert_eq!(batch[0].length(), MAX_ROWS);
    assert!(!acc.needs_flush());
    assert_eq!(acc.rows_count, 0);
}

#[test]
fn float_field_accepts_whole_numbers() {
    let schema = Schema {
        fields: vec![field("x", ColumnType::Scalar(ScalarType::Float64), false)],
    };
    let mut acc = Accumulator::new(schema);
    let rejected = acc.add_rows(Rows::Json(vec![
        obj(vec![("x", num(3))]),
        obj(vec![("x", JsonValue::Num(JsonNum::NegInt(-2)))]),
        obj(vec![("x", JsonValue::Num(JsonNum::Float((2.5f64).to_bits())))]),
    ]));
    assert!(rejected.is_empty());
    match &acc.builders[0] {
        Column::F64(v) => {
            assert_eq!(
                v,
                &vec![
                    Some((3.0f64).to_bits()),
                    Some((-2.0f64).to_bits()),
                    Some((2.5f64).to_bits()),
                ]
            )
        }
        _ => panic!("wrong column kind"),
    }
}

#[test]
fn float_list_requires_float_form() {
    let schema = Schema {
        fields: vec![field("xs", ColumnType::List(ScalarType::Float64), false)],
    };
    let mut acc = Accumulator::new(schema);
    let rejected = acc.add_rows(Rows::Json(vec![obj(vec![(
        "xs",
        JsonValue::Arr(vec![num(1)]),
    )])]));
    assert_eq!(rejected.len(), 1);
    assert_eq!(
        rejected[0].1,
        Error::HomogeneousArrayExpected("xs".to_string())
    );
}

#[test]
fn int_list_accepts_only_integers() {
    let schema = Schema {
        fields: vec![field("ns", ColumnType::List(ScalarType::Int64), false)],
    };
    let mut acc = Accumulator::new(schema);
    let ok = acc.add_rows(Rows::Json(vec![obj(vec![(
        "ns",
        JsonValue::Arr(vec![num(1), JsonValue::Num(JsonNum::NegInt(-4))]),
    )])]));
    assert!(ok.is_empty());
    let bad = acc.add_rows(Rows::Json(vec![obj(vec![(
        "ns",
        JsonValue::Arr(vec![num(1), JsonValue::Num(JsonNum::Float((2.0f64).to_bits()))]),
    )])]));
    assert_eq!(bad.len(), 1);
    assert_eq!(bad[0].1, Error::HomogeneousArrayExpected("ns".to_string()));
    match &acc.builders[0] {
        Column::ListI64(v) => assert_eq!(v, &vec![Some(vec![1, -4])]),
        _ => panic!("wrong column kind"),
    }
}

#[test]
fn nullable_fields_get_explicit_nulls() {
    let schema = Schema {
        fields: vec![
            field("a", ColumnType::Scalar(ScalarType::Str), true),
            field("b", ColumnType::Scalar(ScalarType::Boolean), true),
        ],
    };
    let mut builders = make_builders(&schema);
    let r = add_row_json(&schema, &mut builders, &obj(vec![]));
    assert!(r.is_ok());
    match &builders[0] {
        Column::Str(v) => assert_eq!(v, &vec![None]),
        _ => panic!("wrong column kind"),
    }
    match &builders[1] {
        Column::Bool(v) => assert_eq!(v, &vec![None]),
        _ => panic!("wrong column kind"),
    }
}

#[test]
fn big_unsigned_is_not_an_i64() {
    let schema = Schema {
        fields: vec![field("id", ColumnType::Scalar(ScalarType::Int64), false)],
    };
    let mut acc = Accumulator::new(schema);
    let rejected = acc.add_rows(Rows::Json(vec![obj(vec![("id", num(u64::MAX))])]));
    assert_eq!(rejected.len(), 1);
    assert_eq!(rejected[0].1, Error::TypeMismatch("id".to_string()));
}

#[test]
fn schema_name_uniqueness_is_decided() {
    let good = id_tags_schema();
    assert!(good.names_unique());
    let bad = Schema {
        fields: vec![
            field("id", ColumnType::Scalar(ScalarType::Int64), false),
            field("id", ColumnType::Scalar(ScalarType::Str), true),
        ],
    };
    assert!(!bad.names_unique());
}

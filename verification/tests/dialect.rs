use ultrasql_planner::ast::{BinaryOp, Literal, UnaryOp};
use ultrasql_planner::datatype::{DataType, GeometryType, RangeType};
use ultrasql_planner::dialect::builtin::{
    builtin_return_type, common_scalar_return_type, dense_vector_family_kind,
    is_supported_builtin, validate_builtin_args, vector_metric_family_kind,
};
use ultrasql_planner::dialect::calendar::{
    days_since_epoch, fold_date_interval, parse_date_literal, parse_interval_literal,
};
use ultrasql_planner::dialect::clock::{
    parse_time_of_day_micros, parse_timestamp_literal, parse_timestamptz_literal,
    parse_timetz_literal,
};
use ultrasql_planner::dialect::coerce::{coerce_literal_to_match, coerce_literal_to_type};
use ultrasql_planner::dialect::literal::{
    bind_literal, literal_numeric_as_float, try_fold_literal_binary,
};
use ultrasql_planner::dialect::number::{
    decimal_from_numeric_value, infer_decimal_scale, money_from_literal_value, parse_decimal_literal,
    parse_negative_i64_boundary, pow10_i64, scaled_decimal_text_to_i64,
};
use ultrasql_planner::dialect::reading::{Reading, Readings, Rendering};
use ultrasql_planner::dialect::typename::{
    cast_result_matches, parse_pg_identifier_path, resolve_cast_type, vector_family_cast_matches,
};
use ultrasql_planner::query::ScalarExpr;
use ultrasql_planner::value::{FloatValue, NetworkKind, Value, VectorKind};

fn text_type() -> DataType {
    DataType::Text { max_len: None }
}

fn decimal_type(precision: Option<u32>, scale: Option<i32>) -> DataType {
    DataType::Decimal { precision, scale }
}

fn text(s: &str) -> Value {
    Value::Text(s.to_owned())
}

/// The number as the scanner hands it over.
fn number(x: f64) -> FloatValue {
    FloatValue::Bits { bits: x.to_bits(), shown: x.to_string() }
}

/// The number that a computation stands for.
fn eval(v: &FloatValue) -> f64 {
    match v {
        FloatValue::Bits { bits, .. } => f64::from_bits(*bits),
        FloatValue::Integer(n) => *n as f64,
        FloatValue::Decimal { value, scale } => *value as f64 / 10f64.powi(*scale),
        FloatValue::Single(x) => f64::from(eval(x) as f32),
        FloatValue::Negated(x) => -eval(x),
        FloatValue::Sum(a, b) => eval(a) + eval(b),
        FloatValue::Difference(a, b) => eval(a) - eval(b),
        FloatValue::Product(a, b) => eval(a) * eval(b),
        FloatValue::Quotient(a, b) => eval(a) / eval(b),
    }
}

/// A value with its computations carried out.
fn evaluated(v: &Value) -> Value {
    match v {
        Value::Float64(x) => Value::Float64(number(eval(x))),
        Value::Float32(x) => Value::Float32(number(f64::from(eval(x) as f32))),
        _ => v.duplicate(),
    }
}

fn type_of(v: &Value) -> DataType {
    match v {
        Value::Null => DataType::Null,
        Value::Bool(_) => DataType::Bool,
        Value::Int16(_) => DataType::Int16,
        Value::Int32(_) => DataType::Int32,
        Value::Int64(_) => DataType::Int64,
        Value::Float32(_) => DataType::Float32,
        Value::Float64(_) => DataType::Float64,
        Value::Decimal { scale, .. } => decimal_type(None, Some(*scale)),
        Value::Text(_) => text_type(),
        Value::Char(s) => DataType::Char { len: Some(s.chars().count() as u32) },
        Value::Json(_) => DataType::Json,
        Value::Jsonb(_) => DataType::Jsonb,
        Value::Timestamp(_) => DataType::Timestamp,
        Value::TimestampTz(_) => DataType::TimestampTz,
        Value::Array { element_type, .. } => DataType::Array(Box::new(element_type.duplicate())),
        other => panic!("no literal of {other:?}"),
    }
}

fn lit(value: Value) -> ScalarExpr {
    let data_type = type_of(&value);
    ScalarExpr::Literal { value, data_type }
}

fn reading(data_type: DataType, text: &str, value: Value) -> Reading {
    Reading { data_type, text: text.to_owned(), value }
}

fn bits(s: &str) -> Value {
    Value::BitString(s.chars().map(|c| c == '1').collect())
}

fn vector(family: VectorKind, dims: u32, s: &str) -> Value {
    Value::Vector { family, dims, text: s.to_owned() }
}

fn network(kind: NetworkKind, s: &str) -> Value {
    Value::Network { kind, text: s.to_owned() }
}

const UUID: &str = "550e8400-e29b-41d4-a716-446655440000";

fn uuid() -> Value {
    Value::Uuid(0x550e_8400_e29b_41d4_a716_4466_5544_0000)
}

fn composite_type() -> DataType {
    DataType::Composite {
        oid: 70_002,
        name: "pair_type".to_owned(),
        fields: vec![("a".to_owned(), DataType::Int32), ("b".to_owned(), text_type())],
    }
}

fn int_array(elements: Vec<Value>) -> Value {
    Value::Array { element_type: DataType::Int32, elements }
}

/// What the store reads from the texts of these tests.
fn readings() -> Readings {
    let varbit = || DataType::VarBit { max_len: None };
    Readings {
        texts: vec![
            reading(DataType::Xml, "<root/>", Value::Xml("<root/>".to_owned())),
            reading(DataType::Money, "12.34", Value::Money(1234)),
            reading(DataType::Oid, "42", Value::Oid(42)),
            reading(DataType::PgLsn, "1/10", Value::PgLsn(0x1_0000_0010)),
            reading(varbit(), "101", bits("101")),
            reading(varbit(), "1010", bits("1010")),
            reading(DataType::Inet, "127.0.0.1", network(NetworkKind::Inet, "127.0.0.1")),
            reading(DataType::Cidr, "10.0.0.0/8", network(NetworkKind::Cidr, "10.0.0.0/8")),
            reading(
                DataType::MacAddr,
                "08:00:2b:01:02:03",
                network(NetworkKind::MacAddr, "08:00:2b:01:02:03"),
            ),
            reading(
                DataType::MacAddr8,
                "08:00:2b:01:02:03:04:05",
                network(NetworkKind::MacAddr8, "08:00:2b:01:02:03:04:05"),
            ),
            reading(
                DataType::Vector { dims: None },
                "[1,2,3]",
                vector(VectorKind::Vector, 3, "[1,2,3]"),
            ),
            reading(DataType::Vector { dims: None }, "[1,2]", vector(VectorKind::Vector, 2, "[1,2]")),
            reading(
                DataType::HalfVec { dims: None },
                "[1,2]",
                vector(VectorKind::HalfVec, 2, "[1,2]"),
            ),
            reading(
                DataType::SparseVec { dims: None },
                "{1:1,5:2}/5",
                vector(VectorKind::SparseVec, 5, "{1:1,5:2}/5"),
            ),
            reading(DataType::BitVec { dims: None }, "1010", vector(VectorKind::BitVec, 4, "1010")),
            reading(
                DataType::Range(RangeType::Int4),
                "[1,3)",
                Value::Range { range_type: RangeType::Int4, text: "[1,3)".to_owned() },
            ),
            reading(
                DataType::Geometry(GeometryType::Point),
                "(1,2)",
                Value::Geometry { geometry_type: GeometryType::Point, text: "(1,2)".to_owned() },
            ),
            reading(DataType::Uuid, UUID, uuid()),
            reading(DataType::Bytea, "\\x0aff", Value::Bytea(vec![0x0a, 0xff])),
            reading(composite_type(), "(1,two)", text("(1,two)")),
            reading(
                DataType::Array(Box::new(DataType::Int32)),
                "{1,2}",
                int_array(vec![Value::Int32(1), Value::Int32(2)]),
            ),
            reading(
                decimal_type(None, Some(2)),
                "12.34",
                Value::Decimal { value: 1234, scale: 2 },
            ),
            reading(
                DataType::TimeTz,
                "04:05:06.789 EST",
                Value::TimeTz { micros: 14_706_789_000, offset_seconds: -18_000 },
            ),
            reading(
                DataType::TimeTz,
                "2000-07-01 04:05:06.789 America/New_York",
                Value::TimeTz { micros: 14_706_789_000, offset_seconds: -14_400 },
            ),
            reading(
                DataType::TimestampTz,
                "2000-01-02 03:04:05 EST",
                Value::TimestampTz(115_445_000_000),
            ),
            reading(
                DataType::TimestampTz,
                "2000-07-01 00:00:00 America/New_York",
                Value::TimestampTz(parse_timestamp_literal("2000-07-01 04:00:00", &Readings::new()).unwrap()),
            ),
        ],
        floats: vec![
            Rendering { value: number(0.0001), digits: Some(2), single: false, text: format!("{:.2}", 0.0001) },
            Rendering { value: number(12.25), digits: Some(2), single: false, text: format!("{:.2}", 12.25) },
        ],
    }
}

fn coerce(mut expr: ScalarExpr, target: &DataType) -> ScalarExpr {
    coerce_literal_to_type(&mut expr, target, &readings());
    expr
}

fn literal_type(expr: &ScalarExpr) -> DataType {
    let ScalarExpr::Literal { data_type, .. } = expr else {
        panic!("expected literal, got {expr:?}");
    };
    data_type.duplicate()
}

fn literal_value(expr: &ScalarExpr) -> Value {
    let ScalarExpr::Literal { value, .. } = expr else {
        panic!("expected literal, got {expr:?}");
    };
    evaluated(value)
}

fn typed(ty: &str, value: &str, unit: Option<&str>) -> ScalarExpr {
    bind_literal(
        &Literal::Typed {
            ty: ty.to_owned(),
            value: value.to_owned(),
            unit: unit.map(str::to_owned),
        },
        &readings(),
    )
}

fn dotted(s: &str) -> ScalarExpr {
    let x: f64 = s.parse().unwrap();
    bind_literal(&Literal::Float { text: s.to_owned(), value: number(x) }, &readings())
}

fn null_arg(data_type: DataType) -> ScalarExpr {
    ScalarExpr::Literal { value: Value::Null, data_type }
}

fn return_type(name: &str, types: Vec<DataType>) -> Option<DataType> {
    let args: Vec<ScalarExpr> = types.into_iter().map(null_arg).collect();
    builtin_return_type(name, &args).ok()
}

fn accepts(name: &str, types: Vec<DataType>) -> bool {
    let mut args: Vec<ScalarExpr> = types.into_iter().map(null_arg).collect();
    validate_builtin_args(name, &mut args, &readings()).is_ok()
}

#[test]
fn epoch_day_is_zero() {
    assert_eq!(parse_date_literal("2000-01-01"), Some(0));
}

#[test]
fn typed_literal_matrix_covers_storage_families() {
    let cases = [
        ("date", "2000-01-01", DataType::Date, Value::Date(0)),
        ("date", "2000-99-99", DataType::Date, Value::Null),
        ("time", "01:02:03.000004", DataType::Time, Value::Time(3_723_000_004)),
        (
            "timetz",
            "01:02:03-05",
            DataType::TimeTz,
            Value::TimeTz { micros: 3_723_000_000, offset_seconds: -18_000 },
        ),
        ("timestamp", "2000-01-01 00:00:01", DataType::Timestamp, Value::Timestamp(1_000_000)),
        (
            "timestamptz",
            "2000-01-01 00:00:01+00",
            DataType::TimestampTz,
            Value::TimestampTz(1_000_000),
        ),
        ("json", "{\"ok\":true}", DataType::Json, Value::Json("{\"ok\":true}".to_owned())),
        ("json", "{bad", DataType::Json, Value::Null),
        ("jsonb", "[1,2]", DataType::Jsonb, Value::Jsonb("[1,2]".to_owned())),
        ("xml", "<root/>", DataType::Xml, Value::Xml("<root/>".to_owned())),
        ("xml", "<root>", DataType::Xml, Value::Null),
        ("money", "12.34", DataType::Money, Value::Money(1234)),
        ("oid", "42", DataType::Oid, Value::Oid(42)),
        ("pg_lsn", "1/10", DataType::PgLsn, Value::PgLsn(0x1_0000_0010)),
        ("tsvector", "hello", DataType::TsVector, Value::Text("hello".to_owned())),
        ("unknown_type", "x", DataType::Null, Value::Null),
    ];
    for (ty, text, data_type, value) in cases {
        let expr = typed(ty, text, None);
        assert_eq!(literal_type(&expr), data_type, "{ty} {text}");
        assert_eq!(literal_value(&expr), value, "{ty} {text}");
    }

    for (unit, expected) in [
        ("years", (24, 0, 0)),
        ("months", (2, 0, 0)),
        ("days", (0, 2, 0)),
        ("hours", (0, 0, 7_200_000_000)),
        ("minutes", (0, 0, 120_000_000)),
        ("seconds", (0, 0, 2_000_000)),
    ] {
        assert_eq!(parse_interval_literal("2", Some(unit)), Some(expected), "{unit}");
    }
    assert!(parse_interval_literal("2", Some("fortnights")).is_none());
    assert!(parse_interval_literal("999999999999999999", Some("hours")).is_none());

    assert_eq!(literal_type(&typed("bit", "101", None)), DataType::Bit { len: Some(3) });
    assert_eq!(literal_type(&typed("bit", "102", None)), DataType::Bit { len: None });
    assert_eq!(literal_type(&typed("varbit", "1010", None)), DataType::VarBit { max_len: Some(4) });
    assert_eq!(
        literal_type(&typed("bit varying", "1010", None)),
        DataType::VarBit { max_len: Some(4) }
    );

    for (ty, value, data_type) in [
        ("inet", "127.0.0.1", DataType::Inet),
        ("cidr", "10.0.0.0/8", DataType::Cidr),
        ("macaddr", "08:00:2b:01:02:03", DataType::MacAddr),
        ("macaddr8", "08:00:2b:01:02:03:04:05", DataType::MacAddr8),
    ] {
        let expr = typed(ty, value, None);
        assert_eq!(literal_type(&expr), data_type, "{ty}");
    }

    for (ty, value, data_type) in [
        ("halfvec(2)", "[1,2]", DataType::HalfVec { dims: Some(2) }),
        ("sparsevec(5)", "{1:1,5:2}/5", DataType::SparseVec { dims: Some(5) }),
        ("bitvec(4)", "1010", DataType::BitVec { dims: Some(4) }),
    ] {
        let expr = typed(ty, value, None);
        assert_eq!(literal_type(&expr), data_type, "{ty}");
        assert!(!matches!(literal_value(&expr), Value::Null));
    }
}

#[test]
fn literal_coercion_matrix_covers_cast_targets() {
    let enum_type = DataType::Enum {
        oid: 70_001,
        name: "mood".to_owned(),
        labels: vec!["sad".to_owned(), "ok".to_owned()],
    };
    let domain_type = DataType::Domain {
        oid: 70_003,
        name: "positive_int".to_owned(),
        base_type: Box::new(DataType::Int32),
        not_null: true,
    };
    let cents = || Value::Decimal { value: 125, scale: 2 };
    let json = || "{\"a\":1}".to_owned();

    let scalar_cases = [
        (Value::Int32(7), DataType::Int16, Value::Int16(7)),
        (Value::Int64(8), DataType::Int16, Value::Int16(8)),
        (text("9"), DataType::Int16, Value::Int16(9)),
        (Value::Int16(10), DataType::Int32, Value::Int32(10)),
        (Value::Int64(11), DataType::Int32, Value::Int32(11)),
        (text("12"), DataType::Int32, Value::Int32(12)),
        (Value::Int16(13), DataType::Int64, Value::Int64(13)),
        (Value::Int32(14), DataType::Int64, Value::Int64(14)),
        (text("15"), DataType::Int64, Value::Int64(15)),
        (text("true"), DataType::Bool, Value::Bool(true)),
        (text("off"), DataType::Bool, Value::Bool(false)),
        (Value::Float32(number(1.25)), DataType::Float64, Value::Float64(number(1.25))),
        (Value::Int16(2), DataType::Float64, Value::Float64(number(2.0))),
        (Value::Int32(3), DataType::Float64, Value::Float64(number(3.0))),
        (Value::Int64(4), DataType::Float64, Value::Float64(number(4.0))),
        (cents(), DataType::Float64, Value::Float64(number(1.25))),
        (Value::Float64(number(1.5)), DataType::Float32, Value::Float32(number(1.5))),
        (Value::Int16(2), DataType::Float32, Value::Float32(number(2.0))),
        (Value::Int32(3), DataType::Float32, Value::Float32(number(3.0))),
        (Value::Int64(4), DataType::Float32, Value::Float32(number(4.0))),
        (cents(), DataType::Float32, Value::Float32(number(1.25))),
        (Value::Char("hi  ".to_owned()), text_type(), text("hi  ")),
        (Value::Timestamp(7), DataType::TimestampTz, Value::TimestampTz(7)),
        (Value::TimestampTz(8), DataType::Timestamp, Value::Timestamp(8)),
        (text("01:02:03"), DataType::Time, Value::Time(3_723_000_000)),
        (
            text("01:02:03+02"),
            DataType::TimeTz,
            Value::TimeTz { micros: 3_723_000_000, offset_seconds: 7_200 },
        ),
        (text("2000-01-01 00:00:01"), DataType::Timestamp, Value::Timestamp(1_000_000)),
        (text("2000-01-01 00:00:01+00"), DataType::TimestampTz, Value::TimestampTz(1_000_000)),
        (text("12.34"), decimal_type(None, Some(2)), Value::Decimal { value: 1234, scale: 2 }),
        (Value::Int32(12), decimal_type(None, Some(2)), Value::Decimal { value: 1200, scale: 2 }),
        (text("12.34"), DataType::Money, Value::Money(1234)),
        (
            text("[1,3)"),
            DataType::Range(RangeType::Int4),
            Value::Range { range_type: RangeType::Int4, text: "[1,3)".to_owned() },
        ),
        (
            text("(1,2)"),
            DataType::Geometry(GeometryType::Point),
            Value::Geometry { geometry_type: GeometryType::Point, text: "(1,2)".to_owned() },
        ),
        (
            text("[1,2,3]"),
            DataType::Vector { dims: Some(3) },
            vector(VectorKind::Vector, 3, "[1,2,3]"),
        ),
        (text(UUID), DataType::Uuid, uuid()),
        (text("\\x0aff"), DataType::Bytea, Value::Bytea(vec![0x0a, 0xff])),
        (Value::Text(json()), DataType::Json, Value::Json(json())),
        (Value::Json(json()), DataType::Jsonb, Value::Jsonb(json())),
        (Value::Jsonb(json()), DataType::Json, Value::Json(json())),
        (text("<root/>"), DataType::Xml, Value::Xml("<root/>".to_owned())),
    ];
    for (input, target, expected) in scalar_cases {
        let expr = coerce(lit(input), &target);
        assert_eq!(literal_value(&expr), expected, "{target:?}");
    }

    let decimal_target = decimal_type(Some(8), Some(2));
    let decimal_expr = coerce(lit(text("12.34")), &decimal_target);
    assert_eq!(literal_type(&decimal_expr), decimal_target);

    let enum_expr = coerce(lit(text("ok")), &enum_type);
    assert_eq!(literal_type(&enum_expr), enum_type);

    let composite_expr = coerce(lit(text("(1,two)")), &composite_type());
    assert_eq!(literal_type(&composite_expr), composite_type());

    let domain_expr = coerce(lit(text("42")), &domain_type);
    assert_eq!(literal_value(&domain_expr), Value::Int32(42));
    assert_eq!(literal_type(&domain_expr), domain_type);

    let array_expr = coerce(
        lit(int_array(vec![Value::Int32(1), Value::Null, Value::Int32(2)])),
        &DataType::Array(Box::new(DataType::Int64)),
    );
    assert_eq!(literal_type(&array_expr), DataType::Array(Box::new(DataType::Int64)));
    let text_array_expr =
        coerce(lit(text("{1,2}")), &DataType::Array(Box::new(DataType::Int32)));
    assert_eq!(literal_type(&text_array_expr), DataType::Array(Box::new(DataType::Int32)));

    let bit_expr = coerce(lit(text("1010")), &DataType::Bit { len: Some(4) });
    assert_eq!(literal_type(&bit_expr), DataType::Bit { len: Some(4) });

    let bpchar_expr = coerce(lit(text("hi")), &DataType::Char { len: Some(4) });
    assert_eq!(literal_value(&bpchar_expr), Value::Char("hi  ".to_owned()));

    let inet_expr = coerce(lit(text("127.0.0.1")), &DataType::Inet);
    assert_eq!(literal_type(&inet_expr), DataType::Inet);

    let regclass_expr = coerce(lit(text("42")), &DataType::RegClass);
    assert_eq!(literal_value(&regclass_expr), Value::RegClass(42));
}

#[test]
fn builtin_validation_and_type_matrix_covers_catalog_introspection_surface() {
    let t = text_type;
    let vector3 = || DataType::Vector { dims: Some(3) };
    let halfvec3 = || DataType::HalfVec { dims: Some(3) };
    let sparse5 = || DataType::SparseVec { dims: Some(5) };
    let array = |e: DataType| DataType::Array(Box::new(e));

    let return_cases = [
        ("ifnull", vec![DataType::Null, t()], t()),
        ("nullif", vec![DataType::Int32, DataType::Int32], DataType::Int32),
        ("least", vec![DataType::Int32], DataType::Int32),
        ("greatest", vec![DataType::Float64], DataType::Float64),
        ("extract", vec![], DataType::Int64),
        ("current_date", vec![], DataType::Date),
        ("now", vec![], DataType::TimestampTz),
        ("age", vec![], DataType::Interval),
        ("abs", vec![], DataType::Int64),
        ("sqrt", vec![], DataType::Float64),
        ("length", vec![], DataType::Int32),
        ("bit_count", vec![], DataType::Int64),
        ("set_bit", vec![], DataType::VarBit { max_len: None }),
        ("lower", vec![], t()),
        ("to_tsvector", vec![], DataType::TsVector),
        ("to_tsquery", vec![], DataType::TsQuery),
        ("plainto_tsquery", vec![], DataType::TsQuery),
        ("ts_rank", vec![], DataType::Float64),
        ("ts_rank_cd", vec![], DataType::Float64),
        ("ts_headline", vec![], t()),
        ("numnode", vec![], DataType::Int32),
        ("querytree", vec![], t()),
        ("row_to_json", vec![], DataType::Jsonb),
        ("jsonb_path_exists", vec![], DataType::Bool),
        ("xpath", vec![], array(DataType::Xml)),
        ("pg_advisory_lock", vec![], DataType::Null),
        ("pg_try_advisory_lock", vec![], DataType::Bool),
        ("has_table_privilege", vec![], DataType::Bool),
        ("pg_get_userbyid", vec![], t()),
        ("to_regtype", vec![], DataType::RegType),
        ("gen_random_uuid", vec![], DataType::Uuid),
        ("pg_relation_size", vec![], DataType::Int64),
        ("current_schemas", vec![], array(t())),
        ("version", vec![], t()),
        ("array_length", vec![], DataType::Int32),
        ("array_to_string", vec![], t()),
        ("string_to_array", vec![], array(t())),
        ("l2_distance", vec![], DataType::Float64),
        ("hybrid_search", vec![], DataType::Float64),
        ("vector_norm", vec![], DataType::Float64),
        ("vector_dims", vec![], DataType::Int32),
    ];
    for (name, args, expected) in return_cases {
        assert_eq!(return_type(name, args), Some(expected), "{name}");
        assert!(is_supported_builtin(name), "{name}");
    }
    assert!(return_type("missing_builtin", vec![]).is_none());
    assert!(!is_supported_builtin("missing_builtin"));

    assert!(accepts("current_schemas", vec![DataType::Bool]));
    assert!(!accepts("current_schemas", vec![DataType::Int32]));
    assert!(accepts("set_config", vec![t(), t(), DataType::Bool]));
    assert!(!accepts("set_config", vec![DataType::Int32, t(), DataType::Bool]));
    assert!(accepts("pg_table_is_visible", vec![DataType::RegClass]));
    assert!(!accepts("pg_table_is_visible", vec![t()]));
    assert!(accepts("to_regtype", vec![t()]));
    assert!(!accepts("to_regtype", vec![DataType::Int32]));
    assert!(accepts("to_tsvector", vec![t()]));
    assert!(accepts("to_tsvector", vec![t(), t()]));
    assert!(!accepts("to_tsvector", vec![DataType::Int32]));
    assert!(accepts("ts_rank", vec![DataType::TsVector, DataType::TsQuery]));
    assert!(!accepts("ts_rank", vec![t(), DataType::TsVector, DataType::TsQuery]));
    assert!(!accepts("ts_rank", vec![t()]));
    assert!(accepts("ts_headline", vec![t(), DataType::TsQuery]));
    assert!(!accepts("ts_headline", vec![t()]));
    assert!(accepts("numnode", vec![DataType::TsQuery]));
    assert!(!accepts("numnode", vec![t()]));
    assert!(accepts("querytree", vec![DataType::TsQuery]));
    assert!(!accepts("querytree", vec![t()]));
    assert!(accepts("has_column_privilege", vec![t(), t(), t(), t()]));
    assert!(!accepts("has_column_privilege", vec![t(), t(), t()]));
    assert!(!accepts("jsonb_path_exists", vec![DataType::Jsonb]));
    assert!(accepts("xml_is_well_formed", vec![DataType::Xml]));
    assert!(!accepts("xml_is_well_formed", vec![DataType::Int32]));
    assert!(accepts("xpath", vec![t(), DataType::Xml]));
    assert!(accepts("xpath", vec![t(), DataType::Xml, array(array(t()))]));

    assert!(accepts("l2_distance", vec![vector3(), vector3()]));
    assert!(accepts("cosine_distance", vec![halfvec3(), halfvec3()]));
    assert!(accepts("l1_distance", vec![sparse5(), sparse5()]));
    assert!(!accepts("l2_distance", vec![DataType::Vector { dims: Some(2) }, vector3()]));
    assert!(accepts("vector_norm", vec![halfvec3()]));
    assert!(!accepts("vector_norm", vec![DataType::BitVec { dims: Some(3) }]));
    assert!(accepts("vector_dims", vec![DataType::BitVec { dims: Some(3) }]));
    assert!(!accepts("vector_dims", vec![DataType::Int32]));
    assert!(accepts("hybrid_search", vec![DataType::Jsonb, t(), vector3(), vector3()]));
    assert!(!accepts("hybrid_search", vec![DataType::Int32, t(), vector3(), vector3()]));

    assert_eq!(vector_metric_family_kind(&DataType::Vector { dims: None }), Some(0));
    assert_eq!(vector_metric_family_kind(&DataType::HalfVec { dims: None }), Some(1));
    assert_eq!(vector_metric_family_kind(&DataType::SparseVec { dims: None }), Some(2));
    assert_eq!(vector_metric_family_kind(&DataType::BitVec { dims: None }), None);
    assert_eq!(dense_vector_family_kind(&DataType::Vector { dims: None }), Some(0));
    assert_eq!(dense_vector_family_kind(&DataType::HalfVec { dims: None }), Some(1));
    assert_eq!(dense_vector_family_kind(&DataType::SparseVec { dims: None }), None);
}

#[test]
fn cast_type_and_numeric_helpers_cover_edge_paths() {
    for (name, expected) in [
        ("int", DataType::Int32),
        ("bigint", DataType::Int64),
        ("smallint", DataType::Int16),
        ("boolean", DataType::Bool),
        ("real", DataType::Float32),
        ("double precision", DataType::Float64),
        ("text", text_type()),
        ("bytea", DataType::Bytea),
        ("date", DataType::Date),
        ("time with time zone", DataType::TimeTz),
        ("timestamp without time zone", DataType::Timestamp),
        ("timestamp with time zone", DataType::TimestampTz),
        ("uuid", DataType::Uuid),
        ("json", DataType::Json),
        ("jsonb", DataType::Jsonb),
        ("xml", DataType::Xml),
        ("numeric", decimal_type(None, None)),
        ("numeric(8,2)", decimal_type(Some(8), Some(2))),
        ("decimal(8)", decimal_type(Some(8), Some(0))),
        ("money", DataType::Money),
        ("regclass", DataType::RegClass),
        ("regtype", DataType::RegType),
        ("pg_lsn", DataType::PgLsn),
        ("int4range", DataType::Range(RangeType::Int4)),
        ("point", DataType::Geometry(GeometryType::Point)),
        ("polygon", DataType::Geometry(GeometryType::Polygon)),
        ("char(3)", DataType::Char { len: Some(3) }),
        ("varchar(12)", DataType::Text { max_len: Some(12) }),
        ("bit(4)", DataType::Bit { len: Some(4) }),
        ("varbit(4)", DataType::VarBit { max_len: Some(4) }),
        ("inet", DataType::Inet),
        ("vector(3)", DataType::Vector { dims: Some(3) }),
        ("halfvec", DataType::HalfVec { dims: None }),
    ] {
        assert_eq!(resolve_cast_type(name), Some(expected), "{name}");
    }
    assert_eq!(resolve_cast_type("vector(0)"), None);
    assert_eq!(resolve_cast_type("not_a_type"), None);

    assert_eq!(pow10_i64(3), Some(1000));
    assert_eq!(scaled_decimal_text_to_i64("-12.30"), Some(-1230));
    assert_eq!(scaled_decimal_text_to_i64("bad"), None);
    assert_eq!(parse_decimal_literal("12.30"), Some((1230, 2)));
    assert_eq!(parse_decimal_literal("1e2"), None);
    assert_eq!(
        decimal_from_numeric_value(&Value::Int32(12), Some(2), &readings()),
        Some((1200, 2))
    );
    assert_eq!(
        decimal_from_numeric_value(&Value::Float64(number(12.25)), Some(2), &readings()),
        Some((1225, 2))
    );
    assert_eq!(
        decimal_from_numeric_value(&Value::Float64(number(f64::NAN)), Some(2), &readings()),
        None
    );
    let nearest = literal_numeric_as_float(&Value::Decimal { value: 123, scale: 2 });
    assert_eq!(nearest.map(|x| eval(&x)), Some(1.23));
    assert_eq!(literal_numeric_as_float(&text("x")), None);
    assert_eq!(money_from_literal_value(&text("12.34"), &readings()), Some(1234));
    assert_eq!(money_from_literal_value(&Value::Float64(number(1.0)), &readings()), None);

    assert_eq!(
        parse_pg_identifier_path(r#"public."weird.name""#),
        Some(vec!["public".to_owned(), "weird.name".to_owned()])
    );
    assert_eq!(parse_pg_identifier_path(".bad"), None);

    assert!(vector_family_cast_matches(
        &DataType::Vector { dims: Some(3) },
        &DataType::Vector { dims: Some(3) }
    ));
    assert!(!vector_family_cast_matches(
        &DataType::Vector { dims: Some(3) },
        &DataType::Vector { dims: Some(2) }
    ));
    assert!(cast_result_matches(
        &DataType::Vector { dims: None },
        &DataType::Vector { dims: Some(3) }
    ));
    assert!(cast_result_matches(&decimal_type(None, None), &decimal_type(None, Some(2))));

    let mut left = lit(text("12"));
    let mut right = lit(Value::Int32(12));
    coerce_literal_to_match(&mut left, &mut right, &readings());
    assert_eq!(literal_value(&left), Value::Int32(12));
    assert_eq!(literal_value(&right), Value::Int32(12));

    let result = common_scalar_return_type(
        "coalesce",
        &vec![null_arg(DataType::Int32), null_arg(DataType::Float64)],
    )
    .expect("numeric common type");
    assert_eq!(result, DataType::Float64);
    assert!(
        common_scalar_return_type(
            "coalesce",
            &vec![null_arg(DataType::Int32), null_arg(DataType::Xml)]
        )
        .is_err()
    );

    let negated = ScalarExpr::Unary {
        op: UnaryOp::Neg,
        expr: Box::new(lit(Value::Int32(1))),
        data_type: DataType::Int32,
    };
    assert_eq!(literal_value(&coerce(negated, &DataType::Int32)), Value::Int32(-1));
}

#[test]
fn one_day_after_epoch() {
    assert_eq!(parse_date_literal("2000-01-02"), Some(1));
}

#[test]
fn pre_epoch_six_years_back() {
    // Six 365-day years back plus one leap day (1996): 6 * 365 + 1 = 2191.
    assert_eq!(parse_date_literal("1994-01-01"), Some(-2191));
}

#[test]
fn one_year_forward_is_365_or_366() {
    let y2000 = parse_date_literal("2000-01-01").unwrap();
    let y2001 = parse_date_literal("2001-01-01").unwrap();
    assert_eq!(y2001 - y2000, 366, "2000 was a leap year");
    let y2002 = parse_date_literal("2002-01-01").unwrap();
    assert_eq!(y2002 - y2001, 365);
}

#[test]
fn rejects_malformed() {
    assert!(parse_date_literal("not-a-date").is_none());
    assert!(parse_date_literal("2000/01/01").is_none());
    assert!(parse_date_literal("2000-13-01").is_none());
    assert!(parse_date_literal("2000-01-32").is_none());
    assert!(parse_date_literal("2000-02-30").is_none());
}

#[test]
fn timestamp_literal_parses_microseconds_since_epoch() {
    let r = readings();
    assert_eq!(parse_timestamp_literal("2000-01-01 00:00:00", &r), Some(0));
    assert_eq!(parse_timestamp_literal("2000-01-02 00:00:00", &r), Some(86_400_000_000));
    assert_eq!(parse_timestamp_literal("2000-01-01 01:02:03.456789", &r), Some(3_723_456_789));
    assert_eq!(
        parse_timestamp_literal("2000-01-01 01:02:03.456789-08", &r),
        Some(3_723_456_789),
        "timestamp without time zone ignores input offset"
    );
}

#[test]
fn time_and_timetz_literals_parse_postgres_shapes() {
    let r = readings();
    assert_eq!(parse_time_of_day_micros("01:02:03.456789-08", &r), Some(3_723_456_789));
    assert_eq!(parse_timetz_literal("04:05:06.789-08:00", &r), Some((14_706_789_000, -28_800)));
    assert_eq!(parse_timetz_literal("04:05:06.789 EST", &r), Some((14_706_789_000, -18_000)));
    assert_eq!(
        parse_timetz_literal("2000-07-01 04:05:06.789 America/New_York", &r),
        Some((14_706_789_000, -14_400))
    );
    assert_eq!(parse_timestamptz_literal("2000-01-02 03:04:05 EST", &r), Some(115_445_000_000));
    assert_eq!(
        parse_timestamptz_literal("2000-07-01 00:00:00 America/New_York", &r),
        parse_timestamp_literal("2000-07-01 04:00:00", &r)
    );
}

#[test]
fn algorithm_handles_leap_year_february() {
    let feb29 = days_since_epoch(2000, 2, 29).expect("valid leap day");
    let mar01 = days_since_epoch(2000, 3, 1).expect("valid March day");
    assert_eq!(mar01 - feb29, 1, "2000-02-29 to 2000-03-01 is one day");
}

#[test]
fn parses_interval_year_unit_into_months() {
    assert_eq!(parse_interval_literal("1", Some("year")), Some((12, 0, 0)));
    assert_eq!(parse_interval_literal("3", Some("month")), Some((3, 0, 0)));
    assert_eq!(parse_interval_literal("90", Some("day")), Some((0, 90, 0)));
}

#[test]
fn decimal_coercion_honors_target_scale() {
    let mut expr = ScalarExpr::Literal {
        value: Value::Float64(number(0.0001)),
        data_type: DataType::Float64,
    };
    coerce_literal_to_type(&mut expr, &decimal_type(Some(15), Some(2)), &readings());
    let ScalarExpr::Literal { value, data_type } = expr else {
        panic!("expected literal");
    };
    assert_eq!(value, Value::Decimal { value: 0, scale: 2 });
    assert_eq!(data_type, decimal_type(Some(15), Some(2)));
}

#[test]
fn dotted_numeric_literal_binds_as_exact_decimal() {
    let ScalarExpr::Literal { value, data_type } = dotted("0.0001") else {
        panic!("expected literal");
    };
    assert_eq!(value, Value::Decimal { value: 1, scale: 4 });
    assert_eq!(data_type, decimal_type(None, Some(4)));
}

#[test]
fn decimal_literal_arithmetic_is_not_folded_through_float() {
    let decimal = |value: i64| ScalarExpr::Literal {
        value: Value::Decimal { value, scale: 2 },
        data_type: decimal_type(None, Some(2)),
    };
    let folded =
        try_fold_literal_binary(BinaryOp::Sub, &decimal(6), &decimal(1), &readings())
            .expect("fold attempt should not error");
    assert!(folded.is_none(), "decimal arithmetic must stay exact");
}

#[test]
fn decimal_literal_coerces_to_float64_target() {
    let mut expr = dotted("1.5");
    coerce_literal_to_type(&mut expr, &DataType::Float64, &readings());
    let ScalarExpr::Literal { value, data_type } = expr else {
        panic!("expected literal");
    };
    assert_eq!(data_type, DataType::Float64);
    let Value::Float64(v) = value else {
        panic!("expected float64");
    };
    assert!((eval(&v) - 1.5).abs() < f64::EPSILON);
}

#[test]
fn typed_vector_literal_binds_to_vector_value() {
    let ScalarExpr::Literal { value, data_type } = typed("vector", "[1,2,3]", None) else {
        panic!("expected literal");
    };
    assert_eq!(value, vector(VectorKind::Vector, 3, "[1,2,3]"));
    assert_eq!(data_type, DataType::Vector { dims: Some(3) });
}

#[test]
fn typed_vector_literal_with_modifier_validates_dimension() {
    let ScalarExpr::Literal { value, data_type } = typed("vector(3)", "[1,2,3]", None) else {
        panic!("expected literal");
    };
    assert_eq!(value, vector(VectorKind::Vector, 3, "[1,2,3]"));
    assert_eq!(data_type, DataType::Vector { dims: Some(3) });
}

#[test]
fn typed_vector_literal_rejects_dimension_mismatch() {
    let ScalarExpr::Literal { value, data_type } = typed("vector(3)", "[1,2]", None) else {
        panic!("expected literal");
    };
    assert_eq!(value, Value::Null);
    assert_eq!(data_type, DataType::Vector { dims: Some(3) });
}

#[test]
fn bind_time_and_timetz_literals_from_ast() {
    let ScalarExpr::Literal { value, data_type } = typed("time", "04:05:06-08", None) else {
        panic!("expected time literal");
    };
    assert_eq!(data_type, DataType::Time);
    assert_eq!(value, Value::Time(14_706_000_000));

    let ScalarExpr::Literal { value, data_type } =
        typed("time with time zone", "04:05:06-08", None)
    else {
        panic!("expected timetz literal");
    };
    assert_eq!(data_type, DataType::TimeTz);
    assert_eq!(value, Value::TimeTz { micros: 14_706_000_000, offset_seconds: -28_800 });
}

#[test]
fn fold_date_interval_keeps_calendar_month_semantics() {
    let folded =
        fold_date_interval(days_since_epoch(2000, 1, 31).expect("valid date"), 1, 0, 0).unwrap();
    let ScalarExpr::Literal { value, data_type } = folded else {
        panic!("expected folded literal");
    };
    assert_eq!(data_type, DataType::Date);
    assert_eq!(value, Value::Date(days_since_epoch(2000, 2, 29).expect("valid leap day")));
}

#[test]
fn negative_i64_boundary_literal_folds_exactly() {
    assert_eq!(parse_negative_i64_boundary("9223372036854775808"), Some(i64::MIN));
    assert_eq!(parse_negative_i64_boundary("9_223_372_036_854_775_808"), Some(i64::MIN));
    assert_eq!(parse_negative_i64_boundary("9223372036854775809"), None);
}

#[test]
fn folds_float_literal_subtraction() {
    let float = |x: f64| ScalarExpr::Literal {
        value: Value::Float64(number(x)),
        data_type: DataType::Float64,
    };
    let folded =
        try_fold_literal_binary(BinaryOp::Sub, &float(0.06), &float(0.01), &readings())
            .expect("fold succeeds")
            .expect("float literals should fold");
    let ScalarExpr::Literal { value: Value::Float64(value), data_type } = folded else {
        panic!("expected float literal");
    };
    assert_eq!(data_type, DataType::Float64);
    let value = eval(&value);
    assert!((value - 0.05).abs() < 1.0e-12, "expected 0.05, got {value}");
}

#[test]
fn a_single_number_has_the_places_of_its_own_digits() {
    let x = f64::from(0.1f32);
    let mut known = Readings::new();
    assert_eq!(infer_decimal_scale(&Value::Float32(number(x)), &known), None);
    known.floats.push(Rendering {
        value: number(x),
        digits: None,
        single: true,
        text: 0.1f32.to_string(),
    });
    assert_eq!(infer_decimal_scale(&Value::Float32(number(x)), &known), Some(1));
    assert_eq!(infer_decimal_scale(&Value::Float64(number(x)), &known), Some(17));
}

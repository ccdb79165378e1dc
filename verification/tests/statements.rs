use ultrasql_planner::ast::{
    Assignment, BinaryOp, ConflictColumns, Distinct, Expr, Identifier, InsertSource, InsertStmt,
    Literal, MergeAction, MergeClause, MergeMatchKind, MergeStmt, NullsOrder, ObjectName,
    OnConflict, OrderItem, SelectItem, SelectStmt, SortDirection, TableRef, UpdateStmt,
};
use ultrasql_planner::catalog::{InMemoryCatalog, TableMeta};
use ultrasql_planner::datatype::DataType;
use ultrasql_planner::dialect::aggregate::{
    bind_expr_or_agg_ref, bind_string_agg, collect_aggregates,
};
use ultrasql_planner::dialect::aggregate_call::{
    aggregate_return_type, classify_aggregate, derive_agg_output_name, is_aggregate_name,
};
use ultrasql_planner::dialect::calendar::{
    add_months_to_date, civil_from_days, days_in_month, days_since_epoch, is_leap_year,
    parse_date_literal,
};
use ultrasql_planner::dialect::clock::{parse_time_of_day_micros, parse_timestamp_literal};
use ultrasql_planner::dialect::coerce::make_json_given;
use ultrasql_planner::dialect::dml::{bind_insert, bind_merge, bind_on_conflict, bind_update};
use ultrasql_planner::dialect::expr::bind_expr;
use ultrasql_planner::dialect::json::{normalize_jsonb_text, validate_json_text};
use ultrasql_planner::dialect::literal::{bind_typed_literal, make_json_constant, make_jsonb_constant};
use ultrasql_planner::dialect::operation::bind_column;
use ultrasql_planner::dialect::reading::{Reading, Readings};
use ultrasql_planner::error::PlanError;
use ultrasql_planner::plan::{
    LogicalMergeAction, LogicalMergeMatchKind, LogicalOnConflict, LogicalPlan,
};
use ultrasql_planner::query::{AggregateFunc, QueryPlan, ScalarExpr};
use ultrasql_planner::schema::{Field, Schema};
use ultrasql_planner::scope::{ScopeFrame, ScopeStack};
use ultrasql_planner::value::Value;

fn id(s: &str) -> Identifier {
    Identifier { value: s.to_string() }
}

fn ids(list: &[&str]) -> Vec<Identifier> {
    list.iter().map(|s| id(s)).collect()
}

fn name(s: &str) -> ObjectName {
    ObjectName { parts: s.split('.').map(id).collect() }
}

fn col(s: &str) -> Expr {
    Expr::Column { name: name(s) }
}

fn whole(n: i64) -> Expr {
    Expr::Literal(Literal::Integer { text: n.to_string() })
}

fn text(s: &str) -> Expr {
    Expr::Literal(Literal::Text { value: s.to_string() })
}

fn equal(left: Expr, right: Expr) -> Expr {
    Expr::Binary { op: BinaryOp::Eq, left: Box::new(left), right: Box::new(right) }
}

fn call(func: &str, args: Vec<Expr>) -> Expr {
    Expr::Call { name: name(func), args, distinct: false, within_group: None, over: None }
}

fn assign(target: &str, value: Expr) -> Assignment {
    Assignment { target: id(target), value }
}

fn text_type() -> DataType {
    DataType::Text { max_len: None }
}

fn row(fields: &[(&str, DataType)]) -> Schema {
    let fields = fields
        .iter()
        .map(|(n, t)| Field::nullable(n.to_string(), t.duplicate()))
        .collect();
    Schema::new(fields).expect("distinct names")
}

fn users() -> Schema {
    row(&[("id", DataType::Int32), ("name", text_type()), ("born", DataType::Date)])
}

/// `users (id INT, name TEXT, born DATE)` and `news (id INT, name TEXT)`.
fn catalog() -> InMemoryCatalog {
    let mut cat = InMemoryCatalog::new();
    cat.register("users", TableMeta::new(users()));
    cat.register("news", TableMeta::new(row(&[("id", DataType::Int32), ("name", text_type())])));
    cat
}

fn literal(value: Value, data_type: DataType) -> ScalarExpr {
    ScalarExpr::Literal { value, data_type }
}

// JSON.

#[test]
fn json_documents_are_written_compactly() {
    assert_eq!(
        normalize_jsonb_text(" { \"b\" : 1, \"a\" : [ 2, null ] } ").as_deref(),
        Some("{\"a\":[2,null],\"b\":1}")
    );
    assert_eq!(normalize_jsonb_text("{"), None);
}

#[test]
fn json_texts_are_kept_as_they_are() {
    assert_eq!(validate_json_text(" [1 ] ").as_deref(), Some(" [1 ] "));
    assert_eq!(validate_json_text("[1"), None);
}

#[test]
fn json_literals_are_nulls_where_there_is_no_document() {
    let of = |ty: &str, s: &str| bind_typed_literal(ty, s, None, &Readings::new());
    assert_eq!(
        of("jsonb", "[ 1 ]"),
        literal(Value::Jsonb("[1]".to_string()), DataType::Jsonb)
    );
    assert_eq!(
        of("json", "[ 1 ]"),
        literal(Value::Json("[ 1 ]".to_string()), DataType::Json)
    );
    assert_eq!(of("jsonb", "nope"), literal(Value::Null, DataType::Jsonb));
    assert_eq!(make_json_constant(None), literal(Value::Null, DataType::Json));
    assert_eq!(
        make_jsonb_constant(Some("{}".to_string())),
        literal(Value::Jsonb("{}".to_string()), DataType::Jsonb)
    );
}

#[test]
fn json_conversions_follow_the_document() {
    let t = Value::Text("[ 1 ]".to_string());
    assert_eq!(
        make_json_given(&t, &DataType::Jsonb, Some("[1]".to_string())),
        Some((Value::Jsonb("[1]".to_string()), DataType::Jsonb))
    );
    assert_eq!(
        make_json_given(&t, &DataType::Json, Some("[1]".to_string())),
        Some((Value::Json("[ 1 ]".to_string()), DataType::Json))
    );
    assert_eq!(make_json_given(&t, &DataType::Json, None), None);
    assert_eq!(
        make_json_given(&Value::Jsonb("{}".to_string()), &DataType::Json, None),
        Some((Value::Json("{}".to_string()), DataType::Json))
    );
}

// Dates.

#[test]
fn dates_and_day_numbers_agree() {
    for (y, m, d, n) in
        [(2000, 1, 1, 0), (2000, 2, 29, 59), (1999, 12, 31, -1), (1970, 1, 1, -10957), (2024, 3, 1, 8826)]
    {
        assert_eq!(days_since_epoch(y, m, d), Some(n));
        assert_eq!(civil_from_days(n), Ok((y, m, d)));
    }
    assert!(is_leap_year(2000) && !is_leap_year(1900) && is_leap_year(2024));
    assert_eq!(days_in_month(2023, 2), 28);
}

#[test]
fn added_months_stay_in_the_month() {
    let jan31 = days_since_epoch(2024, 1, 31).unwrap();
    assert_eq!(add_months_to_date(jan31, 1), Ok(days_since_epoch(2024, 2, 29).unwrap()));
    assert_eq!(add_months_to_date(jan31, -2), Ok(days_since_epoch(2023, 11, 30).unwrap()));
}

// Names.

#[test]
fn a_suffix_of_two_columns_is_ambiguous() {
    let input = row(&[("a.id", DataType::Int32), ("b.id", DataType::Int64), ("b.x", text_type())]);
    let scope = ScopeStack::new();
    assert_eq!(
        bind_column(&name("id"), &input, &scope),
        Err(PlanError::Ambiguous("id".to_string()))
    );
    assert_eq!(
        bind_column(&name("b.id"), &input, &scope),
        Ok(ScalarExpr::Column { name: "b.id".to_string(), index: 1, data_type: DataType::Int64 })
    );
    assert_eq!(
        bind_column(&name("x"), &input, &scope),
        Ok(ScalarExpr::Column { name: "x".to_string(), index: 2, data_type: text_type() })
    );
    assert_eq!(
        bind_column(&name("c.id"), &input, &scope),
        Err(PlanError::ColumnNotFound("c.id".to_string()))
    );
}

#[test]
fn an_enclosing_query_is_asked_last() {
    let mut scope = ScopeStack::new();
    scope.push(ScopeFrame { schema: row(&[("k", DataType::Int32), ("z", text_type())]), qualifier: None });
    assert_eq!(
        bind_column(&name("z"), &row(&[("k", DataType::Int64)]), &scope),
        Ok(ScalarExpr::OuterColumn {
            name: "z".to_string(),
            frame_depth: 1,
            column_index: 1,
            data_type: text_type(),
        })
    );
    assert!(matches!(
        bind_column(&name("k"), &row(&[("k", DataType::Int64)]), &scope),
        Ok(ScalarExpr::Column { index: 0, .. })
    ));
}

#[test]
fn the_session_is_named_only_without_a_row() {
    let scope = ScopeStack::new();
    assert!(matches!(
        bind_column(&name("current_user"), &Schema::empty(), &scope),
        Ok(ScalarExpr::FunctionCall { .. })
    ));
    assert_eq!(
        bind_column(&name("current_user"), &users(), &scope),
        Err(PlanError::ColumnNotFound("current_user".to_string()))
    );
}

// Expressions.

fn bound(e: Expr, readings: &Readings) -> Result<ScalarExpr, PlanError> {
    bind_expr(&e, &users(), &catalog(), &mut ScopeStack::new(), readings)
}

#[test]
fn between_compares_with_both_bounds() {
    let between = |low: Expr, high: Expr, negated: bool| Expr::Between {
        expr: Box::new(col("id")),
        low: Box::new(low),
        high: Box::new(high),
        negated,
        symmetric: false,
    };
    let made = bound(between(whole(1), whole(9), false), &Readings::new()).unwrap();
    let ScalarExpr::Binary { op: BinaryOp::And, left, right, data_type: DataType::Bool } = made
    else {
        panic!("expected a conjunction");
    };
    assert!(matches!(*left, ScalarExpr::Binary { op: BinaryOp::GtEq, .. }));
    assert!(matches!(*right, ScalarExpr::Binary { op: BinaryOp::LtEq, .. }));
    let made = bound(between(whole(1), whole(9), true), &Readings::new()).unwrap();
    assert!(matches!(made, ScalarExpr::Binary { op: BinaryOp::Or, .. }));
}

#[test]
fn a_date_is_compared_with_dates_only() {
    let day = Expr::Literal(Literal::Typed {
        ty: "date".to_string(),
        value: "2000-03-01".to_string(),
        unit: None,
    });
    let made = bound(equal(col("born"), day), &Readings::new()).unwrap();
    let ScalarExpr::Binary { right, .. } = made else {
        panic!("expected a comparison");
    };
    assert_eq!(*right, literal(Value::Date(60), DataType::Date));
    assert_eq!(
        bound(equal(col("born"), text("2000-03-01")), &Readings::new()),
        Err(PlanError::TypeMismatch("cannot compare date and text".to_string()))
    );
}

#[test]
fn what_the_store_reads_is_taken() {
    let mut readings = Readings::new();
    readings.texts.push(Reading {
        data_type: DataType::Xml,
        text: "<a/>".to_string(),
        value: Value::Xml("<a></a>".to_string()),
    });
    let of = |s: &str| bind_typed_literal("xml", s, None, &readings);
    assert_eq!(of("<a/>"), literal(Value::Xml("<a></a>".to_string()), DataType::Xml));
    assert_eq!(of("<b"), literal(Value::Null, DataType::Xml));
}

#[test]
fn dates_have_ten_characters() {
    assert_eq!(parse_date_literal(" 2000-01-01 "), Some(0));
    assert_eq!(parse_date_literal("2000-01-01x"), None);
    assert_eq!(parse_date_literal("2000-01-01 00:00:00"), None);
    assert_eq!(parse_date_literal("+200-01-01"), None);
    assert_eq!(parse_date_literal("2000-+1-01"), None);
    assert_eq!(parse_date_literal("2000-01-+1"), None);
    assert_eq!(parse_date_literal("2000-1-01"), None);
    assert_eq!(
        bind_typed_literal("date", "2000-01-01x", None, &Readings::new()),
        literal(Value::Null, DataType::Date)
    );
    assert_eq!(parse_timestamp_literal("2000-01-01x 00:00:00", &Readings::new()), None);
}

#[test]
fn other_times_are_read_by_the_store() {
    let mut readings = Readings::new();
    readings.texts.push(Reading {
        data_type: DataType::Time,
        text: "noon".to_string(),
        value: Value::Time(43_200_000_000),
    });
    assert_eq!(parse_time_of_day_micros("noon", &readings), Some(43_200_000_000));
    assert_eq!(parse_time_of_day_micros("noon", &Readings::new()), None);
    assert_eq!(parse_time_of_day_micros("12:00:00", &Readings::new()), Some(43_200_000_000));
    assert_eq!(parse_timestamp_literal("2000-01-02 noon", &readings), Some(129_600_000_000));
}

#[test]
fn array_messages_spell_types_out() {
    let e = bound(call("array_append", vec![col("id"), whole(1)]), &Readings::new());
    assert_eq!(
        e,
        Err(PlanError::TypeMismatch(
            "array_append: array argument required, got Int32".to_string()
        ))
    );
}

#[test]
fn enclosing_queries_stay_as_they_were() {
    let frame = || ScopeFrame { schema: row(&[("k", DataType::Int32)]), qualifier: Some("o".to_string()) };
    let mut scope = ScopeStack::new();
    scope.push(frame());
    let nowhere = SelectStmt {
        ctes: vec![],
        distinct: Distinct::Absent,
        projection: vec![SelectItem::Expr { expr: whole(1), alias: None }],
        from: vec![TableRef::Named { name: name("nowhere"), alias: None }],
        where_clause: None,
        group_by: vec![],
        having: None,
        set_ops: vec![],
        order_by: vec![],
        limit: None,
        offset: None,
    };
    let e = Expr::Exists { select: Box::new(nowhere), negated: false };
    assert_eq!(
        bind_expr(&e, &users(), &catalog(), &mut scope, &Readings::new()),
        Err(PlanError::TableNotFound("nowhere".to_string()))
    );
    assert_eq!(scope.frames, vec![frame()]);
}

#[test]
fn an_unknown_function_is_not_supported() {
    assert_eq!(
        bound(call("no_such_function", vec![whole(1)]), &Readings::new()),
        Err(PlanError::NotSupported("non-aggregate function calls"))
    );
}

// Aggregates.

#[test]
fn string_agg_needs_a_text_delimiter() {
    let of = |args: Vec<Expr>| {
        bind_string_agg(
            &args,
            &users(),
            &catalog(),
            &Vec::new(),
            &mut ScopeStack::new(),
            &Readings::new(),
        )
    };
    let made = of(vec![col("name"), text(", ")]).unwrap();
    assert_eq!(
        made.direct_arg,
        Some(literal(Value::Text(", ".to_string()), text_type()))
    );
    assert_eq!(
        of(vec![col("name"), whole(1)]).unwrap_err(),
        PlanError::TypeMismatch("string_agg: delimiter must be text, got integer".to_string())
    );
    assert_eq!(
        of(vec![col("name")]).unwrap_err(),
        PlanError::TypeMismatch(
            "string_agg: expected 2 arguments (value, delimiter), got 1".to_string()
        )
    );
}

#[test]
fn an_aliased_aggregate_is_found_by_its_alias() {
    let grouped = row(&[("name", text_type()), ("total", DataType::Int64)]);
    let made = bind_expr_or_agg_ref(
        &call("sum", vec![col("id")]),
        Some("total"),
        &grouped,
        &catalog(),
        &Vec::new(),
        &mut ScopeStack::new(),
        &Readings::new(),
    );
    assert_eq!(
        made,
        Ok(ScalarExpr::Column { name: "total".to_string(), index: 1, data_type: DataType::Int64 })
    );
}

#[test]
fn aggregates_are_collected_once_and_kept() {
    let mut out = Vec::new();
    let mut collect = |e: Expr| {
        let made = collect_aggregates(
            &e,
            &None,
            &users(),
            &mut out,
            &catalog(),
            &Vec::new(),
            &mut ScopeStack::new(),
            &Readings::new(),
        );
        (made, out.len())
    };
    let sum = || call("sum", vec![col("id")]);
    assert_eq!(collect(equal(sum(), sum())), (Ok(()), 1));
    assert_eq!(
        collect(equal(call("max", vec![col("id")]), call("no_such_function", vec![]))),
        (
            Err(PlanError::NotSupported("non-aggregate function calls in aggregation context")),
            2
        )
    );
    assert_eq!(collect(sum()), (Ok(()), 2));
    assert_eq!(out[0].func, AggregateFunc::Sum);
    assert_eq!(out[1].func, AggregateFunc::Max);
}

#[test]
fn aggregate_names_are_told_apart() {
    assert_eq!(classify_aggregate("count", true), Some(AggregateFunc::CountStar));
    assert_eq!(classify_aggregate("COUNT", false), Some(AggregateFunc::Count));
    assert!(is_aggregate_name("StdDev"));
    assert!(!is_aggregate_name("lower"));
    assert_eq!(aggregate_return_type(AggregateFunc::Sum, DataType::Int16), DataType::Int64);
}

// Changes of rows.

fn insert_into_users(columns: &[&str], source: InsertSource) -> Result<LogicalPlan, PlanError> {
    let s = InsertStmt {
        table: name("users"),
        columns: ids(columns),
        source,
        on_conflict: None,
        returning: vec![],
    };
    bind_insert(&s, &catalog(), &mut ScopeStack::new(), &Readings::new())
}

#[test]
fn inserted_rows_are_bound_cell_by_cell() {
    let made = insert_into_users(
        &["id", "name"],
        InsertSource::Values(vec![vec![whole(1), Expr::Default], vec![whole(2), text("b")]]),
    );
    let Ok(LogicalPlan::Insert { columns, source: QueryPlan::Values { rows, schema }, .. }) = made
    else {
        panic!("expected an insertion");
    };
    assert_eq!(columns, vec![0, 1]);
    assert!(matches!(rows[0][1], ScalarExpr::FunctionCall { .. }));
    assert_eq!(rows[1][1], literal(Value::Text("b".to_string()), text_type()));
    assert_eq!(schema.fields[0].name, "column1");
    assert_eq!(schema.fields[1].data_type, text_type());
}

#[test]
fn an_aggregate_column_is_named_after_its_call() {
    let args = vec![col("u.name"), text("a\"b\\\n")];
    assert_eq!(
        derive_agg_output_name("string_agg", &args, &None),
        format!("string_agg({:?},{:?})", args[0], args[1])
    );
    let keys = Some(vec![
        OrderItem { expr: col("id"), direction: SortDirection::Desc, nulls: NullsOrder::Default },
        OrderItem { expr: col("name"), direction: SortDirection::Asc, nulls: NullsOrder::First },
    ]);
    assert_eq!(
        derive_agg_output_name("percentile_cont", &vec![whole(1)], &keys),
        format!(
            "percentile_cont({:?}) within group ({:?},{:?})",
            whole(1),
            keys.as_ref().unwrap()[0],
            keys.as_ref().unwrap()[1]
        )
    );
    assert_eq!(derive_agg_output_name("count", &vec![], &None), "count");
}

#[test]
fn different_calls_have_different_columns() {
    let two = vec![text("a"), text("b")];
    let one = vec![text("a\" }),Literal(Text { value: \"b")];
    assert_ne!(
        derive_agg_output_name("max", &two, &None),
        derive_agg_output_name("max", &one, &None)
    );
}

#[test]
fn ragged_rows_are_refused() {
    let made = insert_into_users(
        &["id", "name"],
        InsertSource::Values(vec![vec![whole(1), text("a")], vec![whole(2)]]),
    );
    assert!(matches!(made, Err(PlanError::TypeMismatch(_))));
}

#[test]
fn the_proposed_row_stands_behind_the_old_one() {
    let on = OnConflict::DoUpdate {
        target: ConflictColumns { columns: ids(&["id"]) },
        set: vec![assign("name", col("excluded.name"))],
        where_clause: None,
    };
    let made = bind_on_conflict(&on, &users(), &catalog(), &mut ScopeStack::new(), &Readings::new());
    let Ok(LogicalOnConflict::DoUpdate { assignments, .. }) = made else {
        panic!("expected an update");
    };
    assert_eq!(assignments[0].0, 1);
    assert!(matches!(assignments[0].1, ScalarExpr::Column { index: 4, .. }));
}

#[test]
fn a_column_is_assigned_once() {
    let s = UpdateStmt {
        table: name("users"),
        set: vec![assign("name", text("a")), assign("NAME", text("b"))],
        from: vec![],
        where_clause: None,
        returning: vec![],
    };
    assert_eq!(
        bind_update(&s, &catalog(), &mut ScopeStack::new(), &Readings::new()).unwrap_err(),
        PlanError::DuplicateColumn("NAME".to_string())
    );
}

fn merge(clauses: Vec<MergeClause>) -> Result<LogicalPlan, PlanError> {
    let s = MergeStmt {
        target: name("users"),
        target_alias: None,
        source: TableRef::Named { name: name("news"), alias: Some(id("n")) },
        on: equal(col("users.id"), col("n.id")),
        clauses,
    };
    bind_merge(&s, &catalog(), &mut ScopeStack::new(), &Readings::new())
}

fn clause(kind: MergeMatchKind, action: MergeAction) -> MergeClause {
    MergeClause { kind, condition: None, action }
}

#[test]
fn a_merge_binds_the_target_before_the_source() {
    let made = merge(vec![
        clause(
            MergeMatchKind::Matched,
            MergeAction::Update { set: vec![assign("name", col("n.name"))] },
        ),
        clause(
            MergeMatchKind::NotMatched,
            MergeAction::Insert { columns: ids(&["id"]), values: vec![col("n.id")] },
        ),
    ]);
    let Ok(LogicalPlan::Merge { clauses, target, .. }) = made else {
        panic!("expected a merge");
    };
    assert_eq!(target, "users");
    assert_eq!(clauses[0].kind, LogicalMergeMatchKind::Matched);
    let LogicalMergeAction::Update { assignments } = &clauses[0].action else {
        panic!("expected an update");
    };
    assert!(matches!(assignments[0], (1, ScalarExpr::Column { index: 4, .. })));
    let LogicalMergeAction::Insert { columns, values } = &clauses[1].action else {
        panic!("expected an insertion");
    };
    assert_eq!(columns, &vec![0]);
    assert!(matches!(values[0], ScalarExpr::Column { index: 3, .. }));
}

#[test]
fn merge_actions_suit_their_match() {
    assert_eq!(
        merge(vec![clause(MergeMatchKind::NotMatched, MergeAction::Delete)]).unwrap_err(),
        PlanError::NotSupported("MERGE WHEN NOT MATCHED THEN DELETE has no target row")
    );
    assert_eq!(
        merge(vec![clause(
            MergeMatchKind::Matched,
            MergeAction::Insert { columns: vec![], values: vec![] },
        )])
        .unwrap_err(),
        PlanError::NotSupported("MERGE WHEN MATCHED THEN INSERT has no source-only target row")
    );
    assert_eq!(
        merge(vec![clause(
            MergeMatchKind::NotMatched,
            MergeAction::Insert { columns: ids(&["id", "name"]), values: vec![whole(1)] },
        )])
        .unwrap_err(),
        PlanError::TypeMismatch(
            "MERGE INSERT column count (2) does not match VALUES arity (1)".to_string()
        )
    );
}

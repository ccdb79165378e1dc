use ultrasql_planner::ast::{
    AlterRoleStmt, AlterSequenceStmt, AlterTableAction, AlterTableStmt, AlterViewAction,
    AlterViewStmt, BinaryOp, ColumnConstraint, ColumnDef, CommentStmt, CommentTarget,
    CompositeAttribute, CopyDirection, CopyFormat, CopyOption, CopySource, CopyStmt,
    CreateDomainStmt, CreateIndexStmt, CreateMaterializedViewStmt, CreateOperatorStmt,
    CreatePolicyStmt, CreateRoleStmt, CreateSchemaStmt, CreateSequenceStmt, CreateTableStmt,
    CreateTypeKind, CreateTypeStmt, CreateViewStmt, Distinct, DomainConstraint, DropIndexStmt,
    DropRoleStmt, DropSchemaStmt, DropSequenceStmt, DropTableStmt, ExcludeElement, Expr, Identifier,
    IndexKey, Literal, ObjectName, PolicyCommand, PolicyPermissiveness, ReferentialAction,
    RoleOption, RoleStmtKind, SelectItem, SelectStmt, SequenceOption, StorageOption,
    TableConstraint, TablePartitionSpec, TableRef, TruncateStmt, TypeName,
};
use ultrasql_planner::catalog::{InMemoryCatalog, TableMeta};
use ultrasql_planner::datatype::DataType;
use ultrasql_planner::dialect::ddl::alter::{bind_alter_table, bind_truncate};
use ultrasql_planner::dialect::ddl::copy::{bind_copy, copy_file_extension_is};
use ultrasql_planner::dialect::ddl::index::{bind_create_index, bind_drop_index, bind_drop_table};
use ultrasql_planner::dialect::ddl::sequence::{
    bind_alter_role, bind_alter_sequence, bind_comment, bind_create_role, bind_create_schema,
    bind_create_sequence, bind_drop_role, bind_drop_schema, bind_drop_sequence, bind_role_options,
    bind_sequence_change, bind_sequence_options,
};
use ultrasql_planner::dialect::ddl::table::bind_create_table;
use ultrasql_planner::dialect::ddl::typedef::{
    bind_create_domain, bind_create_operator, bind_create_type, resolve_column_type,
    resolve_type_name,
};
use ultrasql_planner::dialect::ddl::view::{
    bind_alter_view, bind_create_materialized_view, bind_create_policy, bind_create_view,
};
use ultrasql_planner::dialect::reading::Readings;
use ultrasql_planner::error::PlanError;
use ultrasql_planner::plan::{
    CopyPlan, CreateIndexPlan, CreateTablePlan, LogicalAlterTableAction, LogicalAlterViewAction,
    LogicalCommentTarget, LogicalIndexMethod, LogicalPlan, LogicalReferentialAction,
    LogicalRoleKind, LogicalSequenceChange, LogicalSequenceOptions, plan_contains_outer_column,
};
use ultrasql_planner::query::{AggregateFunc, QueryPlan, ScalarExpr};
use ultrasql_planner::schema::{Field, Schema};
use ultrasql_planner::value::Value;

fn id(s: &str) -> Identifier {
    Identifier { value: s.to_string() }
}

fn ids(list: &[&str]) -> Vec<Identifier> {
    list.iter().map(|s| id(s)).collect()
}

fn name(s: &str) -> ObjectName {
    ObjectName { parts: s.split('.').map(id).collect() }
}

fn col(s: &str) -> Expr {
    Expr::Column { name: name(s) }
}

fn whole(n: i64) -> Expr {
    Expr::Literal(Literal::Integer { text: n.to_string() })
}

fn text(s: &str) -> Expr {
    Expr::Literal(Literal::Text { value: s.to_string() })
}

fn binary(op: BinaryOp, left: Expr, right: Expr) -> Expr {
    Expr::Binary { op, left: Box::new(left), right: Box::new(right) }
}

fn call(func: &str, args: Vec<Expr>) -> Expr {
    Expr::Call { name: name(func), args, distinct: false, within_group: None, over: None }
}

fn text_type() -> DataType {
    DataType::Text { max_len: None }
}

fn mismatch(s: &str) -> PlanError {
    PlanError::TypeMismatch(s.to_string())
}

fn type_named(n: &str, modifiers: &[u32]) -> TypeName {
    TypeName {
        name: id(n),
        type_modifiers: modifiers.to_vec(),
        is_array: false,
        array_dimensions: 0,
    }
}

fn column(n: &str, t: TypeName, constraints: Vec<ColumnConstraint>) -> ColumnDef {
    ColumnDef { name: id(n), data_type: t, collation: None, constraints }
}

fn int_column(n: &str, constraints: Vec<ColumnConstraint>) -> ColumnDef {
    column(n, type_named("int", &[]), constraints)
}

fn select(columns: &[&str], from: &str) -> SelectStmt {
    SelectStmt {
        ctes: vec![],
        distinct: Distinct::Absent,
        projection: columns
            .iter()
            .map(|c| SelectItem::Expr { expr: col(c), alias: None })
            .collect(),
        from: vec![TableRef::Named { name: name(from), alias: None }],
        where_clause: None,
        group_by: vec![],
        having: None,
        set_ops: vec![],
        order_by: vec![],
        limit: None,
        offset: None,
    }
}

/// `users (id INT, tenant TEXT, at TIMESTAMP, v VECTOR(3))` in schema `public`.
fn catalog() -> InMemoryCatalog {
    let mut cat = InMemoryCatalog::new();
    let row = Schema::new(vec![
        Field::required("id".to_string(), DataType::Int32),
        Field::nullable("tenant".to_string(), text_type()),
        Field::nullable("at".to_string(), DataType::Timestamp),
        Field::nullable("v".to_string(), DataType::Vector { dims: Some(3) }),
    ])
    .expect("distinct names");
    cat.register("users", TableMeta::new(row));
    cat
}

// Sequences, roles and comments.

fn options(list: &[SequenceOption]) -> Result<LogicalSequenceOptions, PlanError> {
    bind_sequence_options(&list.to_vec())
}

#[test]
fn a_plain_sequence_counts_up_from_one() {
    assert_eq!(
        options(&[]).unwrap(),
        LogicalSequenceOptions {
            start: 1,
            increment: 1,
            min: None,
            max: None,
            cache: 1,
            cycle: false,
        }
    );
}

#[test]
fn a_falling_sequence_starts_at_its_largest_value() {
    assert_eq!(options(&[SequenceOption::Increment(-2)]).unwrap().start, -1);
    let list = [SequenceOption::Increment(-1), SequenceOption::MaxValue(Some(9))];
    assert_eq!(options(&list).unwrap().start, 9);
    assert_eq!(options(&[SequenceOption::MinValue(Some(5))]).unwrap().start, 5);
}

#[test]
fn unsound_sequences_are_refused() {
    assert_eq!(
        options(&[SequenceOption::Increment(0)]),
        Err(mismatch("sequence INCREMENT must not be zero"))
    );
    assert_eq!(
        options(&[SequenceOption::Cache(0)]),
        Err(mismatch("sequence CACHE must be greater than zero"))
    );
    assert_eq!(
        options(&[SequenceOption::Cache(-1)]),
        Err(mismatch("sequence CACHE does not fit u32"))
    );
    assert_eq!(
        options(&[SequenceOption::MaxValue(Some(1))]),
        Err(mismatch("sequence MINVALUE must be less than MAXVALUE"))
    );
    assert_eq!(
        options(&[SequenceOption::Start(0)]),
        Err(mismatch("sequence START is outside MINVALUE/MAXVALUE"))
    );
    assert_eq!(
        options(&[SequenceOption::Restart(None)]),
        Err(PlanError::NotSupported("CREATE SEQUENCE: RESTART is only valid in ALTER SEQUENCE"))
    );
}

#[test]
fn a_sequence_change_keeps_what_was_stated() {
    let list = vec![SequenceOption::Restart(Some(7)), SequenceOption::MinValue(None)];
    assert_eq!(
        bind_sequence_change(&list).unwrap(),
        LogicalSequenceChange {
            start: None,
            restart: Some(Some(7)),
            increment: None,
            min: Some(None),
            max: None,
            cache: None,
            cycle: None,
        }
    );
}

#[test]
fn a_sequence_is_made_in_its_namespace() {
    let s = CreateSequenceStmt { name: name("Sales.Seq"), options: vec![], if_not_exists: true };
    let LogicalPlan::CreateSequence { sequence_name, namespace, if_not_exists: true, .. } =
        bind_create_sequence(&s).unwrap()
    else {
        panic!("expected a sequence");
    };
    assert_eq!((sequence_name.as_str(), namespace.as_str()), ("seq", "sales"));
}

#[test]
fn the_last_role_option_counts() {
    let made = bind_role_options(&vec![
        RoleOption::Login(true),
        RoleOption::Login(false),
        RoleOption::Password(None),
    ]);
    assert_eq!(made.can_login, Some(false));
    assert_eq!(made.password, Some(None));
    assert_eq!(made.superuser, None);
}

#[test]
fn a_commented_column_has_its_number() {
    let on = |n: &str| CommentStmt {
        target: CommentTarget::Column(name(n)),
        comment: Some("x".to_string()),
    };
    let LogicalPlan::Comment { subject, .. } = bind_comment(&on("users.Tenant"), &catalog()).unwrap()
    else {
        panic!("expected a comment");
    };
    assert_eq!(
        subject,
        LogicalCommentTarget::Column {
            table: "users".to_string(),
            column: "tenant".to_string(),
            attnum: 2,
        }
    );
    assert_eq!(
        bind_comment(&on("users.nope"), &catalog()).unwrap_err(),
        PlanError::ColumnNotFound("nope".to_string())
    );
    assert_eq!(
        bind_comment(&on("tenant"), &catalog()).unwrap_err(),
        PlanError::NotSupported("COMMENT ON COLUMN requires table.column")
    );
}

// Types.

#[test]
fn declared_types_keep_their_modifiers() {
    let of = |n: &str, m: &[u32]| resolve_type_name(&type_named(n, m));
    assert_eq!(of("char", &[]), Ok(DataType::Char { len: Some(1) }));
    assert_eq!(of("bpchar", &[]), Ok(DataType::Char { len: None }));
    assert_eq!(of("char", &[0]), Err(mismatch("length for type character must be at least 1")));
    assert_eq!(of("bit", &[8]), Ok(DataType::Bit { len: Some(8) }));
    assert_eq!(of("numeric", &[]), Ok(DataType::Decimal { precision: None, scale: None }));
    assert_eq!(of("numeric", &[5]), Ok(DataType::Decimal { precision: Some(5), scale: Some(0) }));
    assert_eq!(
        of("numeric", &[5, 2]),
        Ok(DataType::Decimal { precision: Some(5), scale: Some(2) })
    );
    assert_eq!(of("numeric", &[0]), Err(mismatch("NUMERIC precision must be at least 1")));
    assert_eq!(
        of("numeric", &[1, 2, 3]),
        Err(mismatch("NUMERIC accepts at most precision and scale modifiers"))
    );
    assert_eq!(of("vector", &[4]), Ok(DataType::Vector { dims: Some(4) }));
    assert_eq!(of("vector", &[0]), Err(mismatch("VECTOR dimension must be at least 1")));
    assert!(matches!(of("hstore", &[]), Err(PlanError::NotSupported(_))));
}

#[test]
fn declared_arrays_nest_by_their_dimensions() {
    let t = TypeName { is_array: true, array_dimensions: 2, ..type_named("int", &[]) };
    let inner = DataType::Array(Box::new(DataType::Int32));
    assert_eq!(resolve_type_name(&t), Ok(DataType::Array(Box::new(inner))));
}

#[test]
fn a_serial_column_names_its_sequence() {
    let made = resolve_column_type("Orders", "Id", &type_named("bigserial", &[]), &catalog());
    assert_eq!(made, Ok((DataType::Int64, Some("orders_id_seq".to_string()))));
    assert_eq!(
        resolve_column_type("t", "c", &type_named("serial", &[3]), &catalog()),
        Err(PlanError::NotSupported("CREATE TABLE: SERIAL type modifiers"))
    );
}

#[test]
fn an_enum_needs_distinct_labels() {
    let of = |labels: &[&str]| {
        bind_create_type(
            &CreateTypeStmt {
                name: name("mood"),
                kind: CreateTypeKind::Enum {
                    labels: labels.iter().map(|l| l.to_string()).collect(),
                },
            },
            &catalog(),
        )
    };
    let LogicalPlan::CreateTypeEnum { name, namespace, labels, .. } = of(&["ok", "OK"]).unwrap()
    else {
        panic!("expected an enum");
    };
    assert_eq!((name.as_str(), namespace.as_str(), labels.len()), ("mood", "public", 2));
    assert_eq!(of(&["a", "b", "a"]), Err(mismatch("enum type 'mood' repeats label 'a'")));
    assert_eq!(of(&[]), Err(mismatch("enum type 'mood' must have at least one label")));
}

#[test]
fn a_composite_type_lists_its_attributes() {
    let s = CreateTypeStmt {
        name: name("pair"),
        kind: CreateTypeKind::Composite {
            attributes: vec![
                CompositeAttribute { name: id("a"), data_type: type_named("int", &[]) },
                CompositeAttribute { name: id("b"), data_type: type_named("text", &[]) },
            ],
        },
    };
    let LogicalPlan::CreateTypeComposite { attributes, .. } =
        bind_create_type(&s, &catalog()).unwrap()
    else {
        panic!("expected a composite type");
    };
    assert_eq!(
        attributes.fields,
        vec![
            Field::nullable("a".to_string(), DataType::Int32),
            Field::nullable("b".to_string(), text_type()),
        ]
    );
}

#[test]
fn a_domain_checks_its_value() {
    let with = |constraints: Vec<DomainConstraint>| {
        bind_create_domain(
            &CreateDomainStmt { name: name("pos"), data_type: type_named("int", &[]), constraints },
            &catalog(),
            &Readings::new(),
        )
    };
    let positive = binary(BinaryOp::Gt, col("value"), whole(0));
    let made = with(vec![
        DomainConstraint::Check { name: None, expr: positive },
        DomainConstraint::NotNull,
    ]);
    let LogicalPlan::CreateDomain { base_type, not_null, checks, .. } = made.unwrap() else {
        panic!("expected a domain");
    };
    assert_eq!((base_type, not_null), (DataType::Int32, true));
    assert_eq!(checks[0].name, "pos_check_1");
    assert_eq!(
        with(vec![DomainConstraint::Check { name: None, expr: col("value") }]),
        Err(mismatch("CHECK constraint on domain 'pos' has type Int32, expected Bool"))
    );
}

#[test]
fn an_operator_needs_operands_of_its_procedure() {
    let of = |n: &str, left: Option<&str>, right: Option<&str>, procedure: &str| {
        bind_create_operator(
            &CreateOperatorStmt {
                name: n.to_string(),
                left_arg: left.map(|t| type_named(t, &[])),
                right_arg: right.map(|t| type_named(t, &[])),
                procedure: name(procedure),
            },
            &catalog(),
        )
    };
    let LogicalPlan::CreateOperator { result_type, .. } =
        of("===", Some("bool"), Some("bool"), "bool_eq").unwrap()
    else {
        panic!("expected an operator");
    };
    assert_eq!(result_type, DataType::Bool);
    assert_eq!(
        of("===", Some("int"), Some("bool"), "bool_eq"),
        Err(mismatch("CREATE OPERATOR ===: bool_eq requires boolean LEFTARG and RIGHTARG"))
    );
    assert_eq!(
        of("===", None, None, "bool_eq"),
        Err(mismatch("operator '===' must declare LEFTARG or RIGHTARG"))
    );
    assert_eq!(
        of("", Some("bool"), None, "bool_eq"),
        Err(mismatch("operator name must not be empty"))
    );
    assert!(matches!(
        of("===", Some("bool"), Some("bool"), "other"),
        Err(PlanError::NotSupported(_))
    ));
}

// Tables.

fn table_with(
    columns: Vec<ColumnDef>,
    table_constraints: Vec<TableConstraint>,
) -> Result<CreateTablePlan, PlanError> {
    let s = CreateTableStmt {
        name: name("t"),
        if_not_exists: false,
        columns,
        table_constraints,
        partition_by: None,
    };
    match bind_create_table(&s, &catalog(), &Readings::new())? {
        LogicalPlan::CreateTable(t) => Ok(t),
        other => panic!("expected a table, got {other:?}"),
    }
}

#[test]
fn a_table_keeps_one_list_entry_per_column() {
    let t = table_with(
        vec![
            column("id", type_named("serial", &[]), vec![]),
            int_column("n", vec![ColumnConstraint::Default { expr: whole(4) }]),
            int_column(
                "twice",
                vec![ColumnConstraint::GeneratedStored {
                    expr: binary(BinaryOp::Add, col("n"), col("n")),
                }],
            ),
        ],
        vec![],
    )
    .unwrap();
    assert_eq!(t.sequence_defaults, vec![Some("t_id_seq".to_string()), None, None]);
    assert!(!t.columns.fields[0].nullable);
    assert_eq!(
        t.defaults,
        vec![
            None,
            Some(ScalarExpr::Literal { value: Value::Int32(4), data_type: DataType::Int32 }),
            None,
        ]
    );
    assert!(t.generated_stored[2].is_some());
    assert_eq!(t.identity_always, vec![false, false, false]);
}

#[test]
fn an_identity_column_must_be_an_integer() {
    let identity = || ColumnConstraint::GeneratedIdentity { always: true, options: vec![] };
    let t = table_with(vec![int_column("id", vec![identity()])], vec![]).unwrap();
    assert_eq!(t.identity_always, vec![true]);
    assert_eq!(
        table_with(vec![column("id", type_named("text", &[]), vec![identity()])], vec![]),
        Err(mismatch("IDENTITY column 'id' must be SMALLINT, INTEGER, or BIGINT"))
    );
    assert_eq!(
        table_with(vec![int_column("id", vec![identity(), identity()])], vec![]),
        Err(PlanError::NotSupported("CREATE TABLE: multiple IDENTITY clauses on one column"))
    );
}

#[test]
fn a_default_may_not_refer_to_the_row() {
    let made = table_with(
        vec![
            int_column("a", vec![]),
            int_column("b", vec![ColumnConstraint::Default { expr: Expr::Parameter { index: 1 } }]),
        ],
        vec![],
    );
    assert_eq!(
        made,
        Err(PlanError::NotSupported(
            "CREATE TABLE: DEFAULT may not refer to rows, parameters, or subqueries"
        ))
    );
}

#[test]
fn a_generated_column_may_not_use_another() {
    let stored = |e: Expr| vec![ColumnConstraint::GeneratedStored { expr: e }];
    let made = table_with(
        vec![int_column("a", stored(whole(1))), int_column("b", stored(col("a")))],
        vec![],
    );
    assert_eq!(
        made,
        Err(PlanError::NotSupported(
            "CREATE TABLE: generated stored expression may not reference generated columns"
        ))
    );
}

#[test]
fn a_primary_key_of_a_table_keeps_out_nulls() {
    let key = |columns: &[&str]| TableConstraint::PrimaryKey { name: None, columns: ids(columns) };
    let t = table_with(vec![int_column("a", vec![]), int_column("b", vec![])], vec![key(&["A"])])
        .unwrap();
    assert_eq!(
        t.columns.fields.iter().map(|f| f.nullable).collect::<Vec<_>>(),
        vec![false, true]
    );
    assert!(t.unique_constraints[0].primary_key);
    assert_eq!(t.unique_constraints[0].columns, vec![0]);
    assert_eq!(
        table_with(vec![int_column("a", vec![])], vec![key(&["zz"])]),
        Err(PlanError::ColumnNotFound("zz".to_string()))
    );
    assert!(matches!(
        table_with(vec![int_column("a", vec![])], vec![key(&["a"]), key(&["a"])]),
        Err(PlanError::NotSupported(_))
    ));
}

#[test]
fn stated_null_does_not_undo_not_null() {
    let t = table_with(
        vec![int_column("a", vec![ColumnConstraint::NotNull, ColumnConstraint::Null])],
        vec![],
    )
    .unwrap();
    assert!(!t.columns.fields[0].nullable);
}

#[test]
fn a_foreign_key_refers_to_columns_of_its_target() {
    let to = |target: &str, columns: &[&str]| TableConstraint::ForeignKey {
        name: None,
        columns: ids(&["a"]),
        target_table: name(target),
        target_columns: ids(columns),
        on_delete: ReferentialAction::Cascade,
        on_update: ReferentialAction::NoAction,
        deferrable: false,
        initially_deferred: false,
    };
    let t = table_with(vec![int_column("a", vec![])], vec![to("users", &["id"])]).unwrap();
    assert_eq!(t.foreign_keys[0].target_columns, vec![0]);
    assert_eq!(t.foreign_keys[0].on_delete, LogicalReferentialAction::Cascade);
    assert_eq!(
        table_with(vec![int_column("a", vec![])], vec![to("nowhere", &["id"])]),
        Err(PlanError::TableNotFound("nowhere".to_string()))
    );
    let t = table_with(
        vec![column("a", type_named("text", &[]), vec![])],
        vec![to("users", &["id"])],
    );
    assert_eq!(
        t,
        Err(mismatch(
            "FOREIGN KEY 'a_fkey' type mismatch: a Text { max_len: None } references id Int32"
        ))
    );
}

#[test]
fn a_default_has_the_type_of_its_column() {
    let made = table_with(
        vec![int_column(
            "a",
            vec![ColumnConstraint::Default { expr: Expr::Literal(Literal::Bool { value: true }) }],
        )],
        vec![],
    );
    assert_eq!(made, Err(mismatch("DEFAULT for column 'a' has type Bool, expected Int32")));
}

#[test]
fn types_are_spelled_out_by_variant() {
    for t in [
        DataType::Int32,
        DataType::Decimal { precision: Some(10), scale: Some(-2) },
        DataType::Decimal { precision: None, scale: None },
        DataType::Char { len: Some(3) },
        DataType::Array(Box::new(DataType::Text { max_len: None })),
        DataType::Record(vec![
            ("a\"b\\\n\u{1}\u{7f}".to_string(), DataType::Int64),
            ("c".to_string(), DataType::Bool),
        ]),
        DataType::Record(vec![]),
    ] {
        assert_eq!(t.debug_text(), format!("{t:?}"));
    }
    let mood = DataType::Enum {
        oid: 7,
        name: "mood".to_string(),
        labels: vec!["sad".to_string(), "ok".to_string()],
    };
    assert_eq!(
        mood.debug_text(),
        "Enum { oid: Oid(7), name: \"mood\", labels: [\"sad\", \"ok\"] }"
    );
    let positive = DataType::Domain {
        oid: 8,
        name: "pos".to_string(),
        base_type: Box::new(DataType::Int32),
        not_null: true,
    };
    assert_eq!(
        positive.debug_text(),
        "Domain { oid: Oid(8), name: \"pos\", base_type: Int32, not_null: true }"
    );
}

#[test]
fn checks_are_named_and_boolean() {
    let check = |e: Expr| TableConstraint::Check { name: Some(id("Positive")), expr: e };
    let t = table_with(
        vec![int_column("a", vec![])],
        vec![check(binary(BinaryOp::Gt, col("a"), whole(0)))],
    )
    .unwrap();
    assert_eq!(t.checks.len(), 1);
    assert_eq!(
        table_with(vec![int_column("a", vec![])], vec![check(col("a"))]),
        Err(mismatch("CHECK constraint 'positive' has type Int32, expected Bool"))
    );
}

#[test]
fn an_exclusion_uses_a_method_and_operators() {
    let rule = TableConstraint::Exclude {
        name: Some(id("no_overlap")),
        method: id("gist"),
        elements: vec![ExcludeElement { column: id("a"), op: BinaryOp::Eq }],
    };
    let t = table_with(vec![int_column("a", vec![])], vec![rule]).unwrap();
    assert_eq!(t.exclusion_constraints[0].method, LogicalIndexMethod::Gist);
    assert_eq!(t.exclusion_constraints[0].elements[0].column, 0);
}

#[test]
fn a_time_partition_needs_a_timestamp() {
    let by = |c: &str| CreateTableStmt {
        name: name("t"),
        if_not_exists: false,
        columns: vec![int_column("n", vec![]), column("at", type_named("timestamptz", &[]), vec![])],
        table_constraints: vec![],
        partition_by: Some(TablePartitionSpec { column: id(c) }),
    };
    let LogicalPlan::CreateTable(t) =
        bind_create_table(&by("at"), &catalog(), &Readings::new()).unwrap()
    else {
        panic!("expected a table");
    };
    assert_eq!(t.partition.map(|p| p.column_index), Some(1));
    assert_eq!(
        bind_create_table(&by("n"), &catalog(), &Readings::new()).unwrap_err(),
        mismatch("PARTITION BY RANGE column 'n' must be TIMESTAMP or TIMESTAMPTZ")
    );
}

// Indexes.

fn index_on(keys: Vec<Expr>, method: Option<&str>) -> CreateIndexStmt {
    CreateIndexStmt {
        name: None,
        table: name("users"),
        columns: keys.into_iter().map(|expr| IndexKey { expr, opclass: None }).collect(),
        unique: false,
        if_not_exists: false,
        concurrently: false,
        aggregating: false,
        method: method.map(id),
        covering: vec![],
        where_clause: None,
        options: vec![],
    }
}

fn bind_index(s: CreateIndexStmt) -> Result<CreateIndexPlan, PlanError> {
    match bind_create_index(&s, &catalog(), &Readings::new())? {
        LogicalPlan::CreateIndex(i) => Ok(i),
        other => panic!("expected an index, got {other:?}"),
    }
}

#[test]
fn an_index_covers_columns_and_rows() {
    let made = bind_index(CreateIndexStmt {
        covering: ids(&["Tenant"]),
        where_clause: Some(binary(BinaryOp::Gt, col("id"), whole(3))),
        ..index_on(vec![col("id")], None)
    })
    .unwrap();
    assert_eq!(made.index_name, "users_id_idx");
    assert_eq!(made.columns, vec![0]);
    assert_eq!(made.covering_columns, vec![1]);
    assert!(made.predicate.is_some());
    assert_eq!(made.method, LogicalIndexMethod::Btree);
}

#[test]
fn only_btrees_are_unique() {
    for method in ["hash", "gin", "gist", "brin"] {
        let s = CreateIndexStmt { unique: true, ..index_on(vec![col("id")], Some(method)) };
        assert!(matches!(bind_index(s), Err(PlanError::NotSupported(_))), "{method}");
    }
    let s = CreateIndexStmt { unique: true, ..index_on(vec![col("id")], Some("BTREE")) };
    assert!(bind_index(s).unwrap().unique);
}

#[test]
fn a_vector_index_needs_a_vector_column() {
    let payload = |v: &str| StorageOption { name: id("payload"), value: text(v) };
    let made = bind_index(CreateIndexStmt {
        options: vec![payload("bf16")],
        ..index_on(vec![col("v")], Some("hnsw"))
    })
    .unwrap();
    assert_eq!(made.method, LogicalIndexMethod::Hnsw);
    assert_eq!(made.index_options[0].value, "bf16");
    assert_eq!(
        bind_index(index_on(vec![col("id")], Some("ivfflat"))),
        Err(mismatch(
            "CREATE INDEX USING vector ANN requires a vector(n) or halfvec(n) column, got integer"
        ))
    );
    let s = CreateIndexStmt { options: vec![payload("x")], ..index_on(vec![col("id")], None) };
    assert!(matches!(bind_index(s), Err(PlanError::NotSupported(_))));
}

#[test]
fn an_aggregating_index_splits_groups_from_aggregates() {
    let made = bind_index(CreateIndexStmt {
        aggregating: true,
        ..index_on(vec![col("tenant"), call("sum", vec![col("id")])], None)
    })
    .unwrap();
    let kept = made.aggregating.expect("aggregates");
    assert_eq!(kept.group_columns, vec![1]);
    assert_eq!(kept.aggregates[0].func, AggregateFunc::Sum);
    assert_eq!(kept.aggregates[0].arg_column, Some(0));
}

#[test]
fn missing_relations_are_dropped_only_when_allowed() {
    let tables = |if_exists: bool| DropTableStmt {
        names: vec![name("users"), name("gone")],
        if_exists,
        cascade: false,
    };
    assert_eq!(
        bind_drop_table(&tables(false), &catalog()).unwrap_err(),
        PlanError::TableNotFound("gone".to_string())
    );
    let LogicalPlan::DropTable { tables, .. } = bind_drop_table(&tables(true), &catalog()).unwrap()
    else {
        panic!("expected a drop");
    };
    assert_eq!(tables, vec!["users".to_string()]);
    let index = DropIndexStmt { names: vec![name("i")], if_exists: false, cascade: false };
    assert_eq!(
        bind_drop_index(&index, &catalog()).unwrap_err(),
        PlanError::IndexNotFound("i".to_string())
    );
}

// Changes of tables.

fn alter(action: AlterTableAction) -> Result<LogicalAlterTableAction, PlanError> {
    let s = AlterTableStmt { name: name("users"), action };
    match bind_alter_table(&s, &catalog(), &Readings::new())? {
        LogicalPlan::AlterTable { change, .. } => Ok(change),
        other => panic!("expected a change, got {other:?}"),
    }
}

#[test]
fn columns_are_added_dropped_and_renamed_by_name() {
    let add = |n: &str| AlterTableAction::AddColumn {
        column: int_column(n, vec![ColumnConstraint::Default { expr: whole(0) }]),
    };
    let LogicalAlterTableAction::AddColumn { column, default } = alter(add("extra")).unwrap() else {
        panic!("expected a new column");
    };
    assert_eq!((column.name.as_str(), column.nullable), ("extra", true));
    assert_eq!(
        default,
        Some(ScalarExpr::Literal { value: Value::Int32(0), data_type: DataType::Int32 })
    );
    assert_eq!(alter(add("ID")), Err(PlanError::DuplicateColumn("ID".to_string())));
    assert_eq!(
        alter(AlterTableAction::DropColumn { name: id("Tenant") }),
        Ok(LogicalAlterTableAction::DropColumn {
            column_index: 1,
            column_name: "Tenant".to_string(),
        })
    );
    let rename = |old: &str, new: &str| AlterTableAction::RenameColumn {
        old_name: id(old),
        new_name: id(new),
    };
    assert_eq!(alter(rename("id", "at")), Err(PlanError::DuplicateColumn("at".to_string())));
    assert_eq!(alter(rename("no", "x")), Err(PlanError::ColumnNotFound("no".to_string())));
}

#[test]
fn constraints_are_added_by_kind() {
    let add = |constraint: TableConstraint| alter(AlterTableAction::AddConstraint { constraint });
    let made = add(TableConstraint::Unique { name: None, columns: ids(&["tenant"]) });
    let Ok(LogicalAlterTableAction::AddUniqueConstraint { constraint }) = made else {
        panic!("expected a key");
    };
    assert_eq!((constraint.columns, constraint.primary_key), (vec![1], false));
    assert!(matches!(
        add(TableConstraint::Exclude { name: None, method: id("gist"), elements: vec![] }),
        Err(PlanError::NotSupported(_))
    ));
    assert!(matches!(
        alter(AlterTableAction::AlterColumnSetNotNull { column: id("AT") }),
        Ok(LogicalAlterTableAction::AlterColumnSetNotNull { column_index: 2, .. })
    ));
}

#[test]
fn every_truncated_table_must_exist() {
    let s = TruncateStmt {
        tables: vec![name("users"), name("gone")],
        restart_identity: false,
        cascade: false,
    };
    assert_eq!(
        bind_truncate(&s, &catalog()).unwrap_err(),
        PlanError::TableNotFound("gone".to_string())
    );
}

// Views and policies.

fn view(columns: &[&str]) -> CreateViewStmt {
    CreateViewStmt {
        name: name("v1"),
        columns: ids(columns),
        source: Box::new(select(&["id", "tenant"], "users")),
        source_sql: "SELECT id, tenant FROM users".to_string(),
        or_replace: false,
    }
}

#[test]
fn a_view_renames_the_columns_of_its_query() {
    let LogicalPlan::CreateView { output, namespace, source_sql, .. } =
        bind_create_view(&view(&["a", "b"]), &catalog()).unwrap()
    else {
        panic!("expected a view");
    };
    assert_eq!(namespace, "public");
    assert_eq!(source_sql, "SELECT id, tenant FROM users");
    let names: Vec<&str> = output.fields.iter().map(|f| f.name.as_str()).collect();
    assert_eq!(names, vec!["a", "b"]);
    assert_eq!(output.fields[0].data_type, DataType::Int32);
    assert_eq!(
        bind_create_view(&view(&["a"]), &catalog()).unwrap_err(),
        mismatch("CREATE MATERIALIZED VIEW column list has 1 names but query returns 2 columns")
    );
    let taken = CreateViewStmt { name: name("users"), ..view(&[]) };
    assert_eq!(
        bind_create_view(&taken, &catalog()).unwrap_err(),
        PlanError::DuplicateTable("users".to_string())
    );
}

#[test]
fn a_view_is_renamed_in_lower_case() {
    let s = AlterViewStmt {
        name: name("users"),
        action: AlterViewAction::RenameView { new_name: id("People") },
    };
    let LogicalPlan::AlterView { action, .. } = bind_alter_view(&s, &catalog()).unwrap() else {
        panic!("expected a change");
    };
    assert_eq!(action, LogicalAlterViewAction::RenameView { new_name: "people".to_string() });
    let s = AlterViewStmt {
        name: name("users"),
        action: AlterViewAction::ReplaceDefinition { source: Box::new(select(&["id"], "users")) },
    };
    assert!(matches!(bind_alter_view(&s, &catalog()), Err(PlanError::NotSupported(_))));
}

#[test]
fn a_policy_compares_a_column_with_a_setting() {
    let setting = || {
        call(
            "current_setting",
            vec![text("App.Tenant"), Expr::Literal(Literal::Bool { value: true })],
        )
    };
    let policy = |using: Option<Expr>| CreatePolicyStmt {
        name: id("P"),
        table: name("users"),
        permissiveness: PolicyPermissiveness::Permissive,
        command: PolicyCommand::All,
        roles: ids(&["App"]),
        using,
        with_check: None,
    };
    let swapped = binary(BinaryOp::Eq, setting(), col("Tenant"));
    let LogicalPlan::CreatePolicy { policy: made, .. } =
        bind_create_policy(&policy(Some(swapped)), &catalog()).unwrap()
    else {
        panic!("expected a policy");
    };
    let using = made.using.expect("a condition");
    assert_eq!((using.column_index, using.setting_name.as_str()), (1, "app.tenant"));
    assert_eq!((made.policy_name.as_str(), made.roles), ("p", vec!["app".to_string()]));
    let wrong = binary(BinaryOp::Eq, setting(), col("id"));
    assert_eq!(
        bind_create_policy(&policy(Some(wrong)), &catalog()).unwrap_err(),
        PlanError::NotSupported(
            "CREATE POLICY predicate must compare a column to current_setting(setting, true)"
        )
    );
    assert_eq!(
        bind_create_policy(&policy(None), &catalog()).unwrap_err(),
        PlanError::NotSupported("CREATE POLICY requires USING or WITH CHECK")
    );
}

// Copies.

fn copy_of(source: CopySource, format: CopyFormat, options: Vec<CopyOption>) -> CopyStmt {
    CopyStmt {
        table: Some(name("users")),
        query: None,
        columns: vec![],
        direction: CopyDirection::From,
        source,
        format,
        options,
    }
}

fn copied(s: &CopyStmt) -> CopyPlan {
    match bind_copy(s, &catalog()).unwrap() {
        LogicalPlan::Copy(p) => p,
        other => panic!("expected a copy, got {other:?}"),
    }
}

#[test]
fn a_copy_starts_from_the_marks_of_its_format() {
    let p = copied(&copy_of(CopySource::Stdin, CopyFormat::Text, vec![]));
    assert_eq!((p.delimiter, p.null_str.as_str()), ('\t', "\\N"));
    let p = copied(&copy_of(
        CopySource::Stdin,
        CopyFormat::Csv,
        vec![CopyOption::Header(true), CopyOption::RejectTable("Bad".to_string())],
    ));
    assert_eq!((p.delimiter, p.null_str.as_str(), p.header), (',', "", true));
    assert_eq!(p.reject_table.as_deref(), Some("bad"));
    let p = copied(&copy_of(
        CopySource::Stdin,
        CopyFormat::Csv,
        vec![CopyOption::Delimiter(';'), CopyOption::Delimiter('|')],
    ));
    assert_eq!(p.delimiter, '|');
}

#[test]
fn a_parquet_file_is_told_by_its_extension() {
    let file = |p: &str| CopySource::File(p.to_string());
    assert_eq!(copied(&copy_of(file("d/x.PARQUET"), CopyFormat::Text, vec![])).format, CopyFormat::Parquet);
    let stated = vec![CopyOption::Format(CopyFormat::Text)];
    assert_eq!(copied(&copy_of(file("x.parquet"), CopyFormat::Text, stated)).format, CopyFormat::Text);
    assert!(copy_file_extension_is("a.b/c.parquet/", "parquet"));
    assert!(!copy_file_extension_is(".parquet", "parquet"));
    assert!(!copy_file_extension_is("a.parquet/..", "parquet"));
    assert!(!copy_file_extension_is("parquet", "parquet"));
}

#[test]
fn a_copy_carries_the_named_columns() {
    let s = CopyStmt { columns: ids(&["Tenant", "id"]), ..copy_of(CopySource::Stdin, CopyFormat::Text, vec![]) };
    let p = copied(&s);
    assert_eq!(p.columns, vec![1, 0]);
    let names: Vec<&str> = p.schema.fields.iter().map(|f| f.name.as_str()).collect();
    assert_eq!(names, vec!["tenant", "id"]);
    let s = CopyStmt { columns: ids(&["nope"]), ..copy_of(CopySource::Stdin, CopyFormat::Text, vec![]) };
    assert_eq!(
        bind_copy(&s, &catalog()).unwrap_err(),
        PlanError::ColumnNotFound("nope".to_string())
    );
}

#[test]
fn a_query_is_copied_out_only() {
    let of = |direction: CopyDirection, source: CopySource| CopyStmt {
        table: None,
        query: Some(Box::new(select(&["id"], "users"))),
        direction,
        ..copy_of(source, CopyFormat::Csv, vec![])
    };
    let p = copied(&of(CopyDirection::To, CopySource::Stdout));
    assert_eq!(p.relation, None);
    assert_eq!(p.schema.len(), 1);
    assert_eq!(
        bind_copy(&of(CopyDirection::From, CopySource::Stdout), &catalog()).unwrap_err(),
        PlanError::NotSupported("COPY (SELECT ...) supports TO only")
    );
    assert_eq!(
        bind_copy(&of(CopyDirection::To, CopySource::Stdin), &catalog()).unwrap_err(),
        PlanError::NotSupported("COPY query target cannot use STDIN")
    );
}

// Names in lower case.

#[test]
fn schemas_and_roles_are_named_in_lower_case() {
    let made = bind_create_schema(&CreateSchemaStmt { name: id("Sales"), if_not_exists: true });
    let LogicalPlan::CreateSchema { schema_name, if_not_exists: true, .. } = made else {
        panic!("expected a schema");
    };
    assert_eq!(schema_name, "sales");
    let made = bind_drop_schema(&DropSchemaStmt {
        names: ids(&["A", "b"]),
        if_exists: false,
        cascade: true,
    });
    let LogicalPlan::DropSchema { schemas, cascade: true, .. } = made else {
        panic!("expected a drop");
    };
    assert_eq!(schemas, vec!["a".to_string(), "b".to_string()]);
    let made = bind_create_role(&CreateRoleStmt {
        kind: RoleStmtKind::User,
        name: id("Ann"),
        options: vec![RoleOption::ConnectionLimit(3)],
        if_not_exists: false,
    });
    let LogicalPlan::CreateRole { kind: LogicalRoleKind::User, role_name, role_options, .. } = made
    else {
        panic!("expected a role");
    };
    assert_eq!((role_name.as_str(), role_options.connection_limit), ("ann", Some(3)));
    let made = bind_alter_role(&AlterRoleStmt {
        kind: RoleStmtKind::Role,
        name: id("Bob"),
        options: vec![],
    });
    assert!(matches!(made, LogicalPlan::AlterRole { kind: LogicalRoleKind::Role, .. }));
    let made = bind_drop_role(&DropRoleStmt {
        kind: RoleStmtKind::Role,
        names: ids(&["Bob"]),
        if_exists: true,
        cascade: false,
    });
    let LogicalPlan::DropRole { roles, if_exists: true, .. } = made else {
        panic!("expected a drop");
    };
    assert_eq!(roles, vec!["bob".to_string()]);
}

#[test]
fn dropped_sequences_keep_their_stated_namespace() {
    let made = bind_drop_sequence(&DropSequenceStmt {
        names: vec![name("S"), name("sales.T")],
        if_exists: false,
        cascade: false,
    });
    let LogicalPlan::DropSequence { sequences, sequence_namespaces, .. } = made else {
        panic!("expected a drop");
    };
    assert_eq!(sequences, vec!["s".to_string(), "t".to_string()]);
    assert_eq!(sequence_namespaces, vec![None, Some("sales".to_string())]);
    let made = bind_alter_sequence(&AlterSequenceStmt {
        name: name("s"),
        options: vec![SequenceOption::Cache(-1)],
    });
    assert_eq!(made, Err(mismatch("sequence CACHE does not fit u32")));
}

#[test]
fn a_materialized_view_takes_the_columns_of_its_query() {
    let s = CreateMaterializedViewStmt {
        name: name("m"),
        columns: vec![],
        source: Box::new(select(&["tenant"], "users")),
        if_not_exists: false,
    };
    let LogicalPlan::CreateMaterializedView { output, .. } =
        bind_create_materialized_view(&s, &catalog()).unwrap()
    else {
        panic!("expected a view");
    };
    assert_eq!(output.fields, vec![Field::nullable("tenant".to_string(), text_type())]);
}

#[test]
fn outer_columns_are_found_below_a_change() {
    let deleted = |predicate: ScalarExpr| LogicalPlan::Delete {
        table: "t".to_string(),
        input: QueryPlan::Filter {
            input: Box::new(QueryPlan::Empty { schema: Schema::empty() }),
            predicate,
        },
        returning: vec![],
        schema: Schema::empty(),
    };
    let outer = ScalarExpr::OuterColumn {
        name: "k".to_string(),
        frame_depth: 1,
        column_index: 0,
        data_type: DataType::Bool,
    };
    assert!(plan_contains_outer_column(&deleted(outer)));
    let plain = ScalarExpr::Literal { value: Value::Bool(true), data_type: DataType::Bool };
    assert!(!plan_contains_outer_column(&deleted(plain)));
}

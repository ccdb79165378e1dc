use std::collections::HashMap;
use ultrasql_planner::ast::{
    AlterTableAction, AlterTableStmt, Assignment, BinaryOp, ColumnConstraint, ColumnDef,
    ConflictColumns, CreateIndexStmt, CreateTableStmt, CteDef, DeleteStmt, Distinct, DropTableStmt,
    Expr, Identifier, IndexKey, InsertSource, InsertStmt, JoinCondition, JoinOp, Literal,
    NullsOrder, ObjectName, OnConflict, OrderItem, SelectItem, SelectStmt, SetOp, SetOpTail,
    SetQuantifier, SortDirection, Statement, TableRef, TruncateStmt, TypeName, UnaryOp,
    UpdateStmt,
};
use ultrasql_planner::binder::bind;
use ultrasql_planner::binder::select::collect_aggregates;
use ultrasql_planner::catalog::{Catalog, CatalogView, InMemoryCatalog, TableMeta};
use ultrasql_planner::datatype::DataType;
use ultrasql_planner::error::PlanError;
use ultrasql_planner::plan::{
    LogicalAlterTableAction, LogicalOnConflict, LogicalPlan,
};
use ultrasql_planner::query::{
    AggregateFunc, LogicalJoinCondition, LogicalJoinType, LogicalSetQuantifier, QueryPlan,
    ScalarExpr,
};
use ultrasql_planner::schema::{Field, Schema};
use ultrasql_planner::scope::ScopeStack;
use ultrasql_planner::value::{FloatValue, Value};

// Syntax trees.

fn id(s: &str) -> Identifier {
    Identifier { value: s.to_string() }
}

fn ids(list: &[&str]) -> Vec<Identifier> {
    list.iter().map(|s| id(s)).collect()
}

fn name(s: &str) -> ObjectName {
    ObjectName { parts: s.split('.').map(id).collect() }
}

fn col(s: &str) -> Expr {
    Expr::Column { name: name(s) }
}

fn whole(n: i64) -> Expr {
    Expr::Literal(Literal::Integer { text: n.to_string() })
}

fn float(text: &str) -> Expr {
    let x: f64 = text.parse().unwrap();
    Expr::Literal(Literal::Float {
        text: text.to_string(),
        value: FloatValue::Bits { bits: x.to_bits(), shown: x.to_string() },
    })
}

fn text(s: &str) -> Expr {
    Expr::Literal(Literal::Text { value: s.to_string() })
}

fn binary(op: BinaryOp, left: Expr, right: Expr) -> Expr {
    Expr::Binary { op, left: Box::new(left), right: Box::new(right) }
}

fn equal(left: Expr, right: Expr) -> Expr {
    binary(BinaryOp::Eq, left, right)
}

fn call(func: &str, args: Vec<Expr>) -> Expr {
    Expr::Call { name: name(func), args, distinct: false, within_group: None, over: None }
}

fn count_star() -> Expr {
    call("count", vec![col("*")])
}

fn between(e: Expr, low: Expr, high: Expr, negated: bool, symmetric: bool) -> Expr {
    Expr::Between {
        expr: Box::new(e),
        low: Box::new(low),
        high: Box::new(high),
        negated,
        symmetric,
    }
}

fn item(expr: Expr) -> SelectItem {
    SelectItem::Expr { expr, alias: None }
}

fn table(s: &str) -> TableRef {
    TableRef::Named { name: name(s), alias: None }
}

fn table_as(s: &str, alias: &str) -> TableRef {
    TableRef::Named { name: name(s), alias: Some(id(alias)) }
}

fn join(left: TableRef, op: JoinOp, right: TableRef, condition: JoinCondition) -> TableRef {
    TableRef::Join { left: Box::new(left), op, right: Box::new(right), condition }
}

fn select(items: Vec<SelectItem>, from: Vec<TableRef>) -> SelectStmt {
    SelectStmt {
        ctes: vec![],
        distinct: Distinct::Absent,
        projection: items,
        from,
        where_clause: None,
        group_by: vec![],
        having: None,
        set_ops: vec![],
        order_by: vec![],
        limit: None,
        offset: None,
    }
}

fn select_columns(columns: &[&str], from: &str) -> SelectStmt {
    select(columns.iter().map(|c| item(col(c))).collect(), vec![table(from)])
}

fn select_where(columns: &[&str], from: &str, predicate: Expr) -> SelectStmt {
    SelectStmt { where_clause: Some(predicate), ..select_columns(columns, from) }
}

fn insert(columns: &[&str], source: InsertSource) -> Statement {
    insert_on(columns, source, None)
}

fn insert_on(columns: &[&str], source: InsertSource, on_conflict: Option<OnConflict>) -> Statement {
    Statement::Insert(InsertStmt {
        table: name("users"),
        columns: ids(columns),
        source,
        on_conflict,
        returning: vec![],
    })
}

fn assign(target: &str, value: Expr) -> Assignment {
    Assignment { target: id(target), value }
}

fn update(set: Vec<Assignment>, from: Vec<TableRef>, where_clause: Option<Expr>) -> Statement {
    Statement::Update(UpdateStmt {
        table: name("users"),
        set,
        from,
        where_clause,
        returning: vec![],
    })
}

fn type_named(n: &str, modifiers: &[u32]) -> TypeName {
    TypeName {
        name: id(n),
        type_modifiers: modifiers.to_vec(),
        is_array: false,
        array_dimensions: 0,
    }
}

fn column(n: &str, data_type: TypeName, constraints: Vec<ColumnConstraint>) -> ColumnDef {
    ColumnDef { name: id(n), data_type, collation: None, constraints }
}

fn create_table(n: &str, columns: Vec<ColumnDef>, if_not_exists: bool) -> Statement {
    Statement::CreateTable(CreateTableStmt {
        name: name(n),
        if_not_exists,
        columns,
        table_constraints: vec![],
        partition_by: None,
    })
}

fn int_column(n: &str, constraints: Vec<ColumnConstraint>) -> ColumnDef {
    column(n, type_named("int", &[]), constraints)
}

fn create_index(index: Option<&str>, on: &str, key: &str, unique: bool, if_not_exists: bool) -> Statement {
    Statement::CreateIndex(CreateIndexStmt {
        name: index.map(id),
        table: name(on),
        columns: vec![IndexKey { expr: col(key), opclass: None }],
        unique,
        if_not_exists,
        concurrently: false,
        aggregating: false,
        method: None,
        covering: vec![],
        where_clause: None,
        options: vec![],
    })
}

fn drop_table(names: &[&str], if_exists: bool) -> Statement {
    Statement::DropTable(DropTableStmt {
        names: names.iter().map(|n| name(n)).collect(),
        if_exists,
        cascade: false,
    })
}

fn alter_users(action: AlterTableAction) -> Statement {
    Statement::AlterTable(AlterTableStmt { name: name("users"), action })
}

// Catalogs.

fn text_type() -> DataType {
    DataType::Text { max_len: None }
}

fn required(n: &str, t: DataType) -> Field {
    Field::required(n.to_string(), t)
}

fn nullable(n: &str, t: DataType) -> Field {
    Field::nullable(n.to_string(), t)
}

fn rows(fields: Vec<Field>) -> Schema {
    Schema::new(fields).expect("distinct names")
}

/// Catalog with a single `users` table: id INT, name TEXT, score FLOAT8.
fn users_catalog() -> InMemoryCatalog {
    let mut cat = InMemoryCatalog::new();
    cat.register(
        "users",
        TableMeta::new(rows(vec![
            required("id", DataType::Int32),
            nullable("name", text_type()),
            nullable("score", DataType::Float64),
        ])),
    );
    cat
}

/// users (`id` INT, `name` TEXT) and orders (`oid` INT, `user_id` INT).
fn two_table_catalog() -> InMemoryCatalog {
    let mut cat = InMemoryCatalog::new();
    cat.register(
        "users",
        TableMeta::new(rows(vec![
            required("id", DataType::Int32),
            nullable("name", text_type()),
        ])),
    );
    cat.register("orders", TableMeta::new(orders_row()));
    cat
}

fn orders_row() -> Schema {
    rows(vec![required("oid", DataType::Int32), required("user_id", DataType::Int32)])
}

/// `users (id INT, name TEXT, score FLOAT8)` and `orders (oid INT, user_id INT)`.
fn subquery_catalog() -> InMemoryCatalog {
    let mut cat = users_catalog();
    cat.register("orders", TableMeta::new(orders_row()));
    cat
}

// Binding.

fn bind_ok(stmt: Statement) -> LogicalPlan {
    bind(&stmt, &users_catalog()).expect("bind ok")
}

fn bind_err(stmt: Statement, cat: &InMemoryCatalog) -> PlanError {
    bind(&stmt, cat).unwrap_err()
}

fn query_in(s: SelectStmt, cat: &InMemoryCatalog) -> QueryPlan {
    match bind(&Statement::Select(s), cat).expect("bind ok") {
        LogicalPlan::Query(q) => q,
        other => panic!("expected a query, got {other:?}"),
    }
}

fn query_err(s: SelectStmt, cat: &InMemoryCatalog) -> PlanError {
    bind(&Statement::Select(s), cat).unwrap_err()
}

fn find_join(plan: &QueryPlan) -> Option<&QueryPlan> {
    match plan {
        QueryPlan::Join { .. } => Some(plan),
        QueryPlan::Project { input, .. }
        | QueryPlan::Filter { input, .. }
        | QueryPlan::Sort { input, .. }
        | QueryPlan::Limit { input, .. } => find_join(input),
        _ => None,
    }
}

fn find_agg(plan: &QueryPlan) -> Option<&QueryPlan> {
    match plan {
        QueryPlan::Aggregate { .. } => Some(plan),
        QueryPlan::Project { input, .. }
        | QueryPlan::Filter { input, .. }
        | QueryPlan::Sort { input, .. }
        | QueryPlan::Limit { input, .. } => find_agg(input),
        _ => None,
    }
}

fn find_filter(plan: &QueryPlan) -> Option<&ScalarExpr> {
    match plan {
        QueryPlan::Filter { predicate, .. } => Some(predicate),
        QueryPlan::Project { input, .. }
        | QueryPlan::Limit { input, .. }
        | QueryPlan::Sort { input, .. } => find_filter(input),
        _ => None,
    }
}

// Catalog.

#[test]
fn registered_tables_are_numbered() {
    let cat = two_table_catalog();
    assert_eq!(cat.tables[0].oid, 16_384);
    assert_eq!(cat.tables[1].oid, 16_385);
}

// INSERT.

#[test]
fn binds_insert_with_column_list_resolves_indices() {
    // INSERT INTO users (name, score) VALUES ('alice', 1.0)
    let plan = bind_ok(insert(
        &["name", "score"],
        InsertSource::Values(vec![vec![text("alice"), float("1.0")]]),
    ));
    let LogicalPlan::Insert { table, columns, source, .. } = &plan else {
        panic!("expected Insert, got {plan:?}");
    };
    assert_eq!(table, "users");
    assert_eq!(columns, &[1_usize, 2_usize]);
    assert!(matches!(source, QueryPlan::Values { .. }));
}

#[test]
fn binds_insert_default_values() {
    // INSERT INTO users DEFAULT VALUES
    let plan = bind_ok(insert(&[], InsertSource::DefaultValues));
    let LogicalPlan::Insert { source, columns, .. } = &plan else {
        panic!("expected Insert");
    };
    assert_eq!(columns.len(), 3);
    let QueryPlan::Values { rows, .. } = source else {
        panic!("expected Values source");
    };
    assert_eq!(rows.len(), 1);
    assert!(rows[0].is_empty());
}

#[test]
fn binds_insert_with_multi_row_values() {
    // INSERT INTO users (id, name) VALUES (1, 'alice'), (2, 'bob'), (3, 'carol')
    let plan = bind_ok(insert(
        &["id", "name"],
        InsertSource::Values(vec![
            vec![whole(1), text("alice")],
            vec![whole(2), text("bob")],
            vec![whole(3), text("carol")],
        ]),
    ));
    let LogicalPlan::Insert { source, .. } = &plan else {
        panic!("expected Insert");
    };
    let QueryPlan::Values { rows, .. } = source else {
        panic!("expected Values");
    };
    assert_eq!(rows.len(), 3);
    for r in rows {
        assert_eq!(r.len(), 2);
    }
}

#[test]
fn binds_insert_select() {
    // INSERT INTO users (id) SELECT id FROM users WHERE id > 0
    let plan = bind_ok(insert(
        &["id"],
        InsertSource::Select(Box::new(select_where(
            &["id"],
            "users",
            binary(BinaryOp::Gt, col("id"), whole(0)),
        ))),
    ));
    let LogicalPlan::Insert { columns, source, .. } = &plan else {
        panic!("expected Insert");
    };
    assert_eq!(columns, &[0_usize]);
    assert!(
        matches!(
            source,
            QueryPlan::Limit { .. }
                | QueryPlan::Sort { .. }
                | QueryPlan::Project { .. }
                | QueryPlan::Filter { .. }
                | QueryPlan::Scan { .. }
        ),
        "unexpected source: {source:?}"
    );
}

#[test]
fn binds_insert_rejects_ragged_value_rows() {
    // INSERT INTO users (id, name) VALUES (1, 'alice', 99.0)
    let err = bind_err(
        insert(
            &["id", "name"],
            InsertSource::Values(vec![vec![whole(1), text("alice"), float("99.0")]]),
        ),
        &users_catalog(),
    );
    assert!(matches!(err, PlanError::TypeMismatch(_)), "got {err:?}");
}

#[test]
fn binds_insert_rejects_unknown_column() {
    // INSERT INTO users (bogus) VALUES (1)
    let err = bind_err(
        insert(&["bogus"], InsertSource::Values(vec![vec![whole(1)]])),
        &users_catalog(),
    );
    assert!(matches!(err, PlanError::ColumnNotFound(ref c) if c == "bogus"), "got {err:?}");
}

#[test]
fn binds_insert_rejects_arity_mismatch_with_select_source() {
    // INSERT INTO users (id, name) SELECT id, name, score FROM users
    let err = bind_err(
        insert(
            &["id", "name"],
            InsertSource::Select(Box::new(select_columns(&["id", "name", "score"], "users"))),
        ),
        &users_catalog(),
    );
    assert!(matches!(err, PlanError::TypeMismatch(_)), "got {err:?}");
}

#[test]
fn binds_on_conflict_do_nothing() {
    // INSERT INTO users (id) VALUES (1) ON CONFLICT DO NOTHING
    let plan = bind_ok(insert_on(
        &["id"],
        InsertSource::Values(vec![vec![whole(1)]]),
        Some(OnConflict::DoNothing { target: None }),
    ));
    let LogicalPlan::Insert { on_conflict, .. } = &plan else {
        panic!("expected Insert");
    };
    assert!(matches!(on_conflict, Some(LogicalOnConflict::DoNothing { target: None })));
}

#[test]
fn binds_on_conflict_do_update_targets() {
    // INSERT INTO users (id, name) VALUES (1, 'x') ON CONFLICT (id) DO UPDATE SET name = 'y'
    let plan = bind_ok(insert_on(
        &["id", "name"],
        InsertSource::Values(vec![vec![whole(1), text("x")]]),
        Some(OnConflict::DoUpdate {
            target: ConflictColumns { columns: ids(&["id"]) },
            set: vec![assign("name", text("y"))],
            where_clause: None,
        }),
    ));
    let LogicalPlan::Insert { on_conflict, .. } = &plan else {
        panic!("expected Insert");
    };
    let Some(LogicalOnConflict::DoUpdate { target, assignments, .. }) = on_conflict else {
        panic!("expected DoUpdate, got {on_conflict:?}");
    };
    assert_eq!(target.columns, vec![0_usize]);
    assert_eq!(assignments.len(), 1);
    assert_eq!(assignments[0].0, 1);
}

// UPDATE.

#[test]
fn binds_update_with_filter_and_assignments() {
    // UPDATE users SET score = 9.5 WHERE id = 1
    let plan = bind_ok(update(
        vec![assign("score", float("9.5"))],
        vec![],
        Some(equal(col("id"), whole(1))),
    ));
    let LogicalPlan::Update { table, assignments, input, .. } = &plan else {
        panic!("expected Update, got {plan:?}");
    };
    assert_eq!(table, "users");
    assert_eq!(assignments.len(), 1);
    assert_eq!(assignments[0].0, 2);
    assert!(matches!(input, QueryPlan::Filter { .. }));
}

#[test]
fn binds_update_rejects_unknown_target_column() {
    // UPDATE users SET bogus = 1
    let err = bind_err(update(vec![assign("bogus", whole(1))], vec![], None), &users_catalog());
    assert!(matches!(err, PlanError::ColumnNotFound(ref c) if c == "bogus"), "got {err:?}");
}

#[test]
fn binds_update_rejects_duplicate_target_column() {
    // UPDATE users SET score = 1.0, score = 2.0
    let err = bind_err(
        update(
            vec![assign("score", float("1.0")), assign("score", float("2.0"))],
            vec![],
            None,
        ),
        &users_catalog(),
    );
    assert!(
        matches!(err, PlanError::DuplicateColumn(ref c) if c == "score"),
        "expected DuplicateColumn(score), got {err:?}"
    );
}

#[test]
fn binder_rejects_update_from_other_table_as_not_supported() {
    // UPDATE users SET score = 1 FROM users AS u2 WHERE users.id = u2.id
    let err = bind_err(
        update(
            vec![assign("score", whole(1))],
            vec![table_as("users", "u2")],
            Some(equal(col("users.id"), col("u2.id"))),
        ),
        &users_catalog(),
    );
    assert!(matches!(err, PlanError::NotSupported(_)), "got {err:?}");
}

// DELETE.

#[test]
fn binds_delete_emits_scan_filter_delete() {
    // DELETE FROM users WHERE id = 42
    let plan = bind_ok(Statement::Delete(DeleteStmt {
        table: name("users"),
        using: vec![],
        where_clause: Some(equal(col("id"), whole(42))),
        returning: vec![],
    }));
    let LogicalPlan::Delete { table, input, .. } = &plan else {
        panic!("expected Delete, got {plan:?}");
    };
    assert_eq!(table, "users");
    assert!(matches!(input, QueryPlan::Filter { .. }));
}

#[test]
fn binder_rejects_delete_using_other_table_as_not_supported() {
    // DELETE FROM users USING users AS u2 WHERE users.id = u2.id
    let err = bind_err(
        Statement::Delete(DeleteStmt {
            table: name("users"),
            using: vec![table_as("users", "u2")],
            where_clause: Some(equal(col("users.id"), col("u2.id"))),
            returning: vec![],
        }),
        &users_catalog(),
    );
    assert!(matches!(err, PlanError::NotSupported(_)), "got {err:?}");
}

// TRUNCATE.

#[test]
fn binds_truncate_validates_table_existence() {
    // TRUNCATE TABLE users
    let truncate = |n: &str| {
        Statement::Truncate(TruncateStmt {
            tables: vec![name(n)],
            restart_identity: false,
            cascade: false,
        })
    };
    let plan = bind_ok(truncate("users"));
    let LogicalPlan::Truncate { tables, restart_identity, cascade, .. } = &plan else {
        panic!("expected Truncate, got {plan:?}");
    };
    assert_eq!(tables, &["users"]);
    assert!(!restart_identity);
    assert!(!cascade);
    assert!(plan.schema().is_empty());

    // TRUNCATE TABLE nope
    let err = bind_err(truncate("nope"), &users_catalog());
    assert!(matches!(err, PlanError::TableNotFound(ref t) if t == "nope"), "got {err:?}");
}

// CREATE TABLE.

#[test]
fn binds_create_table_resolves_basic_column_types() {
    // CREATE TABLE accounts (id BIGINT NOT NULL, name TEXT, balance FLOAT8)
    let plan = bind(
        &create_table(
            "accounts",
            vec![
                column("id", type_named("bigint", &[]), vec![ColumnConstraint::NotNull]),
                column("name", type_named("text", &[]), vec![]),
                column("balance", type_named("float8", &[]), vec![]),
            ],
            false,
        ),
        &InMemoryCatalog::new(),
    )
    .expect("bind ok");
    let LogicalPlan::CreateTable(t) = plan else {
        panic!("expected CreateTable, got other plan");
    };
    assert_eq!(t.table_name, "accounts");
    assert_eq!(t.namespace, "public");
    assert!(!t.if_not_exists);
    assert_eq!(t.schema, Schema::empty());
    let columns = t.columns;
    assert_eq!(columns.len(), 3);
    assert_eq!(columns.fields[0].name, "id");
    assert_eq!(columns.fields[0].data_type, DataType::Int64);
    assert!(!columns.fields[0].nullable, "NOT NULL honored");
    assert_eq!(columns.fields[1].data_type, DataType::Text { max_len: None });
    assert!(columns.fields[1].nullable, "no constraint = nullable");
    assert_eq!(columns.fields[2].data_type, DataType::Float64);
}

fn created_columns(columns: Vec<ColumnDef>) -> Schema {
    let plan = bind(&create_table("t", columns, false), &InMemoryCatalog::new()).expect("bind ok");
    let LogicalPlan::CreateTable(t) = plan else {
        panic!("expected CreateTable");
    };
    t.columns
}

fn create_err(columns: Vec<ColumnDef>) -> PlanError {
    bind_err(create_table("t", columns, false), &InMemoryCatalog::new())
}

#[test]
fn binds_create_table_with_varchar_modifier() {
    // CREATE TABLE t (s VARCHAR(255))
    let columns = created_columns(vec![column("s", type_named("varchar", &[255]), vec![])]);
    assert_eq!(columns.fields[0].data_type, DataType::Text { max_len: Some(255) });
}

#[test]
fn binds_create_table_primary_key_implies_not_null() {
    // CREATE TABLE t (id INT PRIMARY KEY)
    let columns =
        created_columns(vec![int_column("id", vec![ColumnConstraint::PrimaryKey { name: None }])]);
    assert!(!columns.fields[0].nullable);
}

#[test]
fn binds_create_table_duplicate_column_rejected() {
    // CREATE TABLE t (id INT, id INT)
    let err = create_err(vec![int_column("id", vec![]), int_column("id", vec![])]);
    assert!(matches!(err, PlanError::DuplicateColumn(ref c) if c == "id"), "got {err:?}");
}

#[test]
fn binds_create_table_existing_relation_rejected() {
    // CREATE TABLE users (id INT)
    let err = bind_err(
        create_table("users", vec![int_column("id", vec![])], false),
        &users_catalog(),
    );
    assert!(matches!(err, PlanError::DuplicateTable(ref t) if t == "users"), "got {err:?}");
}

#[test]
fn binds_create_table_if_not_exists_skips_existence_check() {
    // CREATE TABLE IF NOT EXISTS users (id INT)
    let plan = bind_ok(create_table("users", vec![int_column("id", vec![])], true));
    let LogicalPlan::CreateTable(t) = plan else {
        panic!("expected CreateTable");
    };
    assert!(t.if_not_exists);
    assert_eq!(t.table_name, "users");
}

#[test]
fn binds_create_table_with_qualified_namespace() {
    // CREATE TABLE my_ns.events (id INT)
    let plan = bind(
        &create_table("my_ns.events", vec![int_column("id", vec![])], false),
        &InMemoryCatalog::new(),
    )
    .expect("bind ok");
    let LogicalPlan::CreateTable(t) = plan else {
        panic!("expected CreateTable");
    };
    assert_eq!(t.namespace, "my_ns");
    assert_eq!(t.table_name, "events");
}

#[test]
fn binds_create_table_rejects_unsupported_constraints() {
    // CREATE TABLE t (id INT UNIQUE)
    let err = create_err(vec![int_column("id", vec![ColumnConstraint::Unique { name: None }])]);
    assert!(matches!(err, PlanError::NotSupported(_)), "got {err:?}");

    // CREATE TABLE t (id INT DEFAULT 7)
    let err = create_err(vec![int_column("id", vec![ColumnConstraint::Default { expr: whole(7) }])]);
    assert!(matches!(err, PlanError::NotSupported(_)), "got {err:?}");

    // CREATE TABLE t (id INT CHECK (id > 0))
    let err = create_err(vec![int_column(
        "id",
        vec![ColumnConstraint::Check {
            name: None,
            expr: binary(BinaryOp::Gt, col("id"), whole(0)),
        }],
    )]);
    assert!(matches!(err, PlanError::NotSupported(_)), "got {err:?}");
}

#[test]
fn binds_create_table_rejects_unsupported_column_type() {
    // CREATE TABLE t (id NUMERIC(10, 2))
    let err = create_err(vec![column("id", type_named("numeric", &[10, 2]), vec![])]);
    assert!(matches!(err, PlanError::NotSupported(_)), "got {err:?}");
}

/// A catalog of tables by name, as a store of tables hands it out.
struct Snapshot {
    tables: HashMap<String, TableMeta>,
}

impl Catalog for Snapshot {
    fn model(&self) -> CatalogView {
        unreachable!("a model is never computed")
    }

    fn lookup_table(&self, name: &str) -> Option<TableMeta> {
        self.tables.get(&name.to_ascii_lowercase()).map(|m| m.duplicate())
    }

    fn lookup_table_in_schema(&self, schema_name: &str, name: &str) -> Option<TableMeta> {
        self.lookup_table(name).filter(|m| m.schema_name.eq_ignore_ascii_case(schema_name))
    }

    fn lookup_table_oid(&self, _name: &str) -> Option<u32> {
        None
    }

    fn lookup_table_oid_in_schema(&self, _schema_name: &str, _name: &str) -> Option<u32> {
        None
    }

    fn lookup_type(&self, _name: &str) -> Option<DataType> {
        None
    }

    fn lookup_type_in_schema(&self, _schema_name: &str, _name: &str) -> Option<DataType> {
        None
    }

    fn lookup_type_oid(&self, _name: &str) -> Option<u32> {
        None
    }

    fn lookup_type_oid_in_schema(&self, _schema_name: &str, _name: &str) -> Option<u32> {
        None
    }

    fn lookup_index_schema(&self, _name: &str) -> Option<String> {
        None
    }

    fn lookup_index_in_schema(&self, _schema_name: &str, _name: &str) -> bool {
        false
    }
}

#[test]
fn binds_create_table_persistent_catalog_via_snapshot_adapter() {
    // CREATE TABLE products (id INT)
    let mut tables = HashMap::new();
    tables.insert(
        "products".to_string(),
        TableMeta::new(rows(vec![required("id", DataType::Int32)])),
    );
    let snap = Snapshot { tables };
    let err =
        bind(&create_table("products", vec![int_column("id", vec![])], false), &snap).unwrap_err();
    assert!(matches!(err, PlanError::DuplicateTable(ref t) if t == "products"), "got {err:?}");
}

// Joins.

fn users_join_orders(op: JoinOp) -> SelectStmt {
    select(
        vec![item(col("users.id"))],
        vec![join(
            table("users"),
            op,
            table("orders"),
            JoinCondition::On(equal(col("users.id"), col("orders.user_id"))),
        )],
    )
}

#[test]
fn binds_inner_join_with_on_predicate() {
    // SELECT users.id FROM users INNER JOIN orders ON users.id = orders.user_id
    let plan = query_in(users_join_orders(JoinOp::Inner), &two_table_catalog());
    let join = find_join(&plan).expect("should contain a Join node");
    let QueryPlan::Join { join_type, condition, schema, .. } = join else {
        panic!("expected Join");
    };
    assert_eq!(*join_type, LogicalJoinType::Inner);
    assert!(matches!(condition, LogicalJoinCondition::On(_)), "expected ON condition");
    assert_eq!(schema.len(), 4, "join schema width should be 4");
}

#[test]
fn binds_left_outer_join_makes_right_columns_nullable() {
    // SELECT users.id FROM users LEFT JOIN orders ON users.id = orders.user_id
    let plan = query_in(users_join_orders(JoinOp::LeftOuter), &two_table_catalog());
    let join = find_join(&plan).expect("should contain a Join");
    let QueryPlan::Join { join_type, schema, .. } = join else {
        panic!("expected Join");
    };
    assert_eq!(*join_type, LogicalJoinType::LeftOuter);
    assert!(!schema.field_at(0).nullable, "left.id should remain required");
    assert!(schema.field_at(2).nullable, "right.oid should be nullable");
    assert!(schema.field_at(3).nullable, "right.user_id should be nullable");
}

#[test]
fn binds_right_outer_join_makes_left_columns_nullable() {
    // SELECT users.id FROM users RIGHT JOIN orders ON users.id = orders.user_id
    let plan = query_in(users_join_orders(JoinOp::RightOuter), &two_table_catalog());
    let join = find_join(&plan).expect("should contain a Join");
    let QueryPlan::Join { join_type, schema, .. } = join else {
        panic!("expected Join");
    };
    assert_eq!(*join_type, LogicalJoinType::RightOuter);
    assert!(schema.field_at(0).nullable, "left.id should be nullable in RIGHT JOIN");
    assert!(!schema.field_at(2).nullable, "right.oid stays required");
}

#[test]
fn binds_full_outer_join_makes_both_sides_nullable() {
    // SELECT users.id FROM users FULL OUTER JOIN orders ON users.id = orders.user_id
    let plan = query_in(users_join_orders(JoinOp::FullOuter), &two_table_catalog());
    let join = find_join(&plan).expect("should contain a Join");
    let QueryPlan::Join { join_type, schema, .. } = join else {
        panic!("expected Join");
    };
    assert_eq!(*join_type, LogicalJoinType::FullOuter);
    assert!(schema.field_at(0).nullable, "left.id should be nullable in FULL OUTER JOIN");
    assert!(schema.field_at(2).nullable, "right.oid should be nullable in FULL OUTER JOIN");
}

#[test]
fn binds_cross_join_has_no_predicate() {
    // SELECT users.id FROM users CROSS JOIN orders
    let plan = query_in(
        select(
            vec![item(col("users.id"))],
            vec![join(table("users"), JoinOp::Cross, table("orders"), JoinCondition::Absent)],
        ),
        &two_table_catalog(),
    );
    let join = find_join(&plan).expect("should contain a Join");
    let QueryPlan::Join { join_type, condition, .. } = join else {
        panic!("expected Join");
    };
    assert_eq!(*join_type, LogicalJoinType::Cross);
    assert!(
        matches!(condition, LogicalJoinCondition::Absent),
        "cross join should have no condition"
    );
}

#[test]
fn binds_using_join_folds_to_equality_and_collapses_columns() {
    // SELECT a.id FROM a JOIN b USING (id)
    let mut cat = InMemoryCatalog::new();
    cat.register("a", TableMeta::new(rows(vec![required("id", DataType::Int32)])));
    cat.register(
        "b",
        TableMeta::new(rows(vec![
            required("id", DataType::Int32),
            nullable("val", text_type()),
        ])),
    );
    let plan = query_in(
        select(
            vec![item(col("a.id"))],
            vec![join(table("a"), JoinOp::Inner, table("b"), JoinCondition::Using(ids(&["id"])))],
        ),
        &cat,
    );
    let join = find_join(&plan).expect("should contain a Join");
    let QueryPlan::Join { condition, schema, .. } = join else {
        panic!("expected Join");
    };
    assert!(matches!(condition, LogicalJoinCondition::Using(_)), "expected USING condition");
    assert_eq!(schema.len(), 2, "USING join should collapse the shared column");
}

#[test]
fn join_trees_over_three_tables_bind() {
    // SELECT ta.x FROM ta {INNER|CROSS} JOIN tb .. {INNER|CROSS} JOIN tc ..
    let mut cat = InMemoryCatalog::new();
    cat.register("ta", TableMeta::new(rows(vec![required("x", DataType::Int32)])));
    cat.register("tb", TableMeta::new(rows(vec![required("y", DataType::Int32)])));
    cat.register("tc", TableMeta::new(rows(vec![required("z", DataType::Int32)])));
    for first in [JoinOp::Inner, JoinOp::Cross] {
        for second in [JoinOp::Inner, JoinOp::Cross] {
            let on = |op: JoinOp, right: &str| match op {
                JoinOp::Cross => JoinCondition::Absent,
                _ => JoinCondition::On(equal(col("ta.x"), col(right))),
            };
            let tree = join(
                join(table("ta"), first, table("tb"), on(first, "tb.y")),
                second,
                table("tc"),
                on(second, "tc.z"),
            );
            let plan = query_in(select(vec![item(col("ta.x"))], vec![tree]), &cat);
            assert_eq!(plan.schema().len(), 1);
        }
    }
}

// Grouping.

#[test]
fn binds_group_by_emits_aggregate_node() {
    // SELECT id, count(*) FROM users GROUP BY id
    let plan = query_in(
        SelectStmt {
            group_by: vec![col("id")],
            ..select(vec![item(col("id")), item(count_star())], vec![table("users")])
        },
        &users_catalog(),
    );
    let agg = find_agg(&plan).expect("should contain Aggregate node");
    let QueryPlan::Aggregate { group_by, aggregates, schema, .. } = agg else {
        panic!("expected Aggregate");
    };
    assert_eq!(group_by.len(), 1, "one GROUP BY key");
    assert_eq!(aggregates.len(), 1, "one aggregate");
    assert_eq!(aggregates[0].func, AggregateFunc::CountStar);
    assert_eq!(schema.len(), 2);
    assert_eq!(schema.field_at(0).name, "id");
}

#[test]
fn binds_count_star() {
    // SELECT count(*) FROM users
    let plan = query_in(select(vec![item(count_star())], vec![table("users")]), &users_catalog());
    let agg = find_agg(&plan).expect("should contain Aggregate node");
    let QueryPlan::Aggregate { aggregates, .. } = agg else {
        panic!("expected Aggregate");
    };
    assert_eq!(aggregates.len(), 1);
    assert_eq!(aggregates[0].func, AggregateFunc::CountStar);
    assert!(aggregates[0].arg.is_none(), "count(*) has no argument");
}

#[test]
fn binds_having_filters_post_aggregate() {
    // SELECT id, count(*) FROM users GROUP BY id HAVING count(*) > 1
    let plan = query_in(
        SelectStmt {
            group_by: vec![col("id")],
            having: Some(binary(BinaryOp::Gt, count_star(), whole(1))),
            ..select(vec![item(col("id")), item(count_star())], vec![table("users")])
        },
        &users_catalog(),
    );
    fn filter_above_agg(plan: &QueryPlan) -> bool {
        match plan {
            QueryPlan::Filter { input, .. } => matches!(input.as_ref(), QueryPlan::Aggregate { .. }),
            QueryPlan::Project { input, .. }
            | QueryPlan::Sort { input, .. }
            | QueryPlan::Limit { input, .. } => filter_above_agg(input),
            _ => false,
        }
    }
    assert!(filter_above_agg(&plan), "should have Filter above Aggregate for HAVING");
}

// Set operations.

fn with_set_op(left: SelectStmt, quantifier: SetQuantifier, right: SelectStmt) -> SelectStmt {
    SelectStmt {
        set_ops: vec![SetOpTail { op: SetOp::Union, quantifier, right: Box::new(right) }],
        ..left
    }
}

#[test]
fn binds_union_all_arity_match() {
    // SELECT id FROM users UNION ALL SELECT id FROM users
    let plan = query_in(
        with_set_op(
            select_columns(&["id"], "users"),
            SetQuantifier::All,
            select_columns(&["id"], "users"),
        ),
        &users_catalog(),
    );
    let QueryPlan::SetOp { quantifier, schema, .. } = &plan else {
        panic!("expected SetOp, got {plan:?}");
    };
    assert_eq!(*quantifier, LogicalSetQuantifier::All);
    assert_eq!(schema.len(), 1, "UNION ALL of single-column selects = 1 col");
}

#[test]
fn binds_union_distinct_with_arity_mismatch_is_rejected() {
    // SELECT id FROM users UNION SELECT id, name FROM users
    let err = query_err(
        with_set_op(
            select_columns(&["id"], "users"),
            SetQuantifier::Distinct,
            select_columns(&["id", "name"], "users"),
        ),
        &users_catalog(),
    );
    assert!(matches!(err, PlanError::TypeMismatch(_)), "got {err:?}");
}

// Common table expressions.

#[test]
fn binds_cte_then_references_it_in_body() {
    // WITH active AS (SELECT id FROM users) SELECT id FROM active
    let plan = query_in(
        SelectStmt {
            ctes: vec![CteDef {
                name: id("active"),
                column_aliases: vec![],
                recursive: false,
                query: Box::new(select_columns(&["id"], "users")),
            }],
            ..select_columns(&["id"], "active")
        },
        &users_catalog(),
    );
    let QueryPlan::Cte { name, recursive, .. } = &plan else {
        panic!("expected Cte at top, got {plan:?}");
    };
    assert_eq!(name, "active");
    assert!(!recursive, "non-recursive CTE should have recursive=false");
}

// Wildcards.

#[test]
fn binds_select_star_expands_via_catalog() {
    // SELECT * FROM users
    let plan = query_in(select(vec![SelectItem::Wildcard], vec![table("users")]), &users_catalog());
    let QueryPlan::Project { schema, exprs, .. } = &plan else {
        panic!("expected Project, got {plan:?}");
    };
    assert_eq!(schema.len(), 3, "SELECT * should expand to 3 columns");
    assert_eq!(exprs.len(), 3);
}

#[test]
fn binds_qualified_wildcard_restricts_to_table_alias() {
    // SELECT u.* FROM users u JOIN orders o ON u.id = o.user_id
    let plan = query_in(
        select(
            vec![SelectItem::QualifiedWildcard { qualifier: id("u") }],
            vec![join(
                table_as("users", "u"),
                JoinOp::Inner,
                table_as("orders", "o"),
                JoinCondition::On(equal(col("u.id"), col("o.user_id"))),
            )],
        ),
        &two_table_catalog(),
    );
    let QueryPlan::Project { schema, .. } = &plan else {
        panic!("expected Project, got {plan:?}");
    };
    assert_eq!(schema.len(), 2, "u.* should expand to users' 2 columns");
}

#[test]
fn binder_rejects_unknown_aggregate_with_not_supported() {
    // SELECT mode(score) FROM users GROUP BY id
    let err = query_err(
        SelectStmt {
            group_by: vec![col("id")],
            ..select(vec![item(call("mode", vec![col("score")]))], vec![table("users")])
        },
        &users_catalog(),
    );
    assert!(
        matches!(err, PlanError::NotSupported(_)),
        "unknown aggregate should be NotSupported, got {err:?}"
    );
}

// Subqueries.

fn there_is(s: SelectStmt) -> Expr {
    Expr::Exists { select: Box::new(s), negated: false }
}

#[test]
fn binds_uncorrelated_exists_subquery() {
    // SELECT id FROM users WHERE EXISTS (SELECT oid FROM orders)
    let plan = query_in(
        select_where(&["id"], "users", there_is(select_columns(&["oid"], "orders"))),
        &subquery_catalog(),
    );
    let predicate = find_filter(&plan).expect("should have Filter");
    let ScalarExpr::Exists { negated, correlated, .. } = predicate else {
        panic!("expected Exists predicate, got {predicate:?}");
    };
    assert!(!negated, "should not be negated");
    assert!(!correlated, "no outer column reference: uncorrelated");
}

fn correlated_select() -> SelectStmt {
    select_where(
        &["id"],
        "users",
        there_is(select_where(&["oid"], "orders", equal(col("user_id"), col("id")))),
    )
}

#[test]
fn binds_correlated_exists_subquery() {
    // SELECT id FROM users WHERE EXISTS (SELECT oid FROM orders WHERE user_id = id)
    let plan = query_in(correlated_select(), &subquery_catalog());
    let predicate = find_filter(&plan).expect("should have Filter");
    let ScalarExpr::Exists { correlated, .. } = predicate else {
        panic!("expected Exists, got {predicate:?}");
    };
    assert!(correlated, "id resolves to outer users.id: correlated");
}

fn in_subquery(e: Expr, s: SelectStmt, negated: bool) -> Expr {
    Expr::InSubquery { expr: Box::new(e), select: Box::new(s), negated }
}

#[test]
fn binds_in_subquery_arity_1_check_rejects_multi_column() {
    // SELECT id FROM users WHERE id IN (SELECT oid, user_id FROM orders)
    let err = query_err(
        select_where(
            &["id"],
            "users",
            in_subquery(col("id"), select_columns(&["oid", "user_id"], "orders"), false),
        ),
        &subquery_catalog(),
    );
    assert!(
        matches!(err, PlanError::TypeMismatch(_)),
        "multi-column IN subquery should be TypeMismatch, got {err:?}"
    );
}

fn scalar_subquery(columns: &[&str]) -> Expr {
    Expr::Subquery {
        select: Box::new(SelectStmt {
            limit: Some(whole(1)),
            ..select_columns(columns, "orders")
        }),
    }
}

#[test]
fn binds_scalar_subquery_returns_scalar_subquery_expr() {
    // SELECT id, (SELECT oid FROM orders LIMIT 1) FROM users
    let plan = query_in(
        select(vec![item(col("id")), item(scalar_subquery(&["oid"]))], vec![table("users")]),
        &subquery_catalog(),
    );
    let QueryPlan::Project { exprs, .. } = &plan else {
        panic!("expected Project, got {plan:?}");
    };
    let (second_expr, _) = &exprs[1];
    assert!(
        matches!(second_expr, ScalarExpr::ScalarSubquery { correlated: false, .. }),
        "expected uncorrelated ScalarSubquery, got {second_expr:?}"
    );
}

#[test]
fn binds_not_in_subquery() {
    // SELECT id FROM users WHERE id NOT IN (SELECT user_id FROM orders)
    let plan = query_in(
        select_where(
            &["id"],
            "users",
            in_subquery(col("id"), select_columns(&["user_id"], "orders"), true),
        ),
        &subquery_catalog(),
    );
    let predicate = find_filter(&plan).expect("should have Filter");
    let ScalarExpr::InSubquery { negated, .. } = predicate else {
        panic!("expected InSubquery, got {predicate:?}");
    };
    assert!(negated, "NOT IN should produce negated=true");
}

fn any_of(e: Expr, op: BinaryOp) -> Expr {
    Expr::Any {
        expr: Box::new(e),
        op,
        select: Box::new(select_columns(&["user_id"], "orders")),
    }
}

#[test]
fn binds_any_eq_lowers_to_exists() {
    // SELECT id FROM users WHERE id = ANY (SELECT user_id FROM orders)
    let plan = query_in(
        select_where(&["id"], "users", any_of(col("id"), BinaryOp::Eq)),
        &subquery_catalog(),
    );
    let predicate = find_filter(&plan).expect("should have Filter");
    assert!(
        matches!(predicate, ScalarExpr::InSubquery { negated: false, .. }),
        "= ANY should lower to InSubquery(negated=false), got {predicate:?}"
    );
}

#[test]
fn binds_any_with_lt_returns_not_supported() {
    // SELECT id FROM users WHERE id < ANY (SELECT user_id FROM orders)
    let err = query_err(
        select_where(&["id"], "users", any_of(col("id"), BinaryOp::Lt)),
        &subquery_catalog(),
    );
    assert!(
        matches!(err, PlanError::NotSupported(_)),
        "< ANY should be NotSupported, got {err:?}"
    );
}

#[test]
fn binder_rejects_scalar_subquery_with_multi_column_projection() {
    // SELECT id, (SELECT oid, user_id FROM orders LIMIT 1) FROM users
    let err = query_err(
        select(
            vec![item(col("id")), item(scalar_subquery(&["oid", "user_id"]))],
            vec![table("users")],
        ),
        &subquery_catalog(),
    );
    assert!(
        matches!(err, PlanError::TypeMismatch(_)),
        "multi-column scalar subquery should be TypeMismatch, got {err:?}"
    );
}

#[test]
fn outer_column_correctly_tracks_frame_depth_in_nested_subquery() {
    // SELECT id FROM users WHERE EXISTS (SELECT oid FROM orders WHERE user_id = id)
    let plan = query_in(correlated_select(), &subquery_catalog());
    let predicate = find_filter(&plan).expect("should find Exists predicate");
    let ScalarExpr::Exists { subplan, .. } = predicate else {
        panic!("expected Exists");
    };
    let inner = find_filter(subplan).expect("should find the inner Filter");
    let ScalarExpr::Binary { right, .. } = inner else {
        panic!("expected Binary, got {inner:?}");
    };
    let ScalarExpr::OuterColumn { frame_depth, .. } = right.as_ref() else {
        panic!("expected OuterColumn, got {right:?}");
    };
    assert_eq!(*frame_depth, 1, "column is one level out: frame_depth = 1");
}

// BETWEEN.

fn predicate_of(e: Expr) -> ScalarExpr {
    let plan = query_in(select_where(&["id"], "users", e), &users_catalog());
    find_filter(&plan).expect("expected Filter under plan").duplicate()
}

#[test]
fn binds_between_as_ge_and_le() {
    // SELECT id FROM users WHERE id BETWEEN 5 AND 10
    let pred = predicate_of(between(col("id"), whole(5), whole(10), false, false));
    let ScalarExpr::Binary { op: BinaryOp::And, left, right, data_type } = &pred else {
        panic!("expected AND at the root, got {pred:?}");
    };
    assert_eq!(*data_type, DataType::Bool);
    let ScalarExpr::Binary { op: BinaryOp::GtEq, left: lo_l, right: lo_r, .. } = left.as_ref()
    else {
        panic!("expected GtEq on left, got {left:?}");
    };
    assert!(matches!(lo_l.as_ref(), ScalarExpr::Column { name, .. } if name == "id"));
    assert!(matches!(lo_r.as_ref(), ScalarExpr::Literal { value: Value::Int32(5), .. }));
    let ScalarExpr::Binary { op: BinaryOp::LtEq, left: hi_l, right: hi_r, .. } = right.as_ref()
    else {
        panic!("expected LtEq on right, got {right:?}");
    };
    assert!(matches!(hi_l.as_ref(), ScalarExpr::Column { name, .. } if name == "id"));
    assert!(matches!(hi_r.as_ref(), ScalarExpr::Literal { value: Value::Int32(10), .. }));
}

#[test]
fn binds_not_between_as_lt_or_gt() {
    // SELECT id FROM users WHERE id NOT BETWEEN 5 AND 10
    let pred = predicate_of(between(col("id"), whole(5), whole(10), true, false));
    let ScalarExpr::Binary { op: BinaryOp::Or, left, right, .. } = &pred else {
        panic!("expected OR at the root, got {pred:?}");
    };
    assert!(matches!(left.as_ref(), ScalarExpr::Binary { op: BinaryOp::Lt, .. }));
    assert!(matches!(right.as_ref(), ScalarExpr::Binary { op: BinaryOp::Gt, .. }));
}

#[test]
fn binds_between_mixed_numeric_types() {
    // SELECT id FROM users WHERE score BETWEEN 1 AND 100
    let pred = predicate_of(between(col("score"), whole(1), whole(100), false, false));
    assert!(matches!(pred, ScalarExpr::Binary { op: BinaryOp::And, .. }));
}

#[test]
fn binds_between_symmetric_emits_or_of_two_ranges() {
    // SELECT id FROM users WHERE id BETWEEN SYMMETRIC 10 AND 5
    let pred = predicate_of(between(col("id"), whole(10), whole(5), false, true));
    let ScalarExpr::Binary { op: BinaryOp::Or, left, right, .. } = &pred else {
        panic!("expected OR at the root, got {pred:?}");
    };
    for (label, arm) in [("forward", left.as_ref()), ("reversed", right.as_ref())] {
        assert!(
            matches!(arm, ScalarExpr::Binary { op: BinaryOp::And, .. }),
            "SYMMETRIC {label} arm should be AND, got {arm:?}"
        );
    }
}

#[test]
fn binds_not_between_symmetric_emits_and_of_two_ranges() {
    // SELECT id FROM users WHERE id NOT BETWEEN SYMMETRIC 10 AND 5
    let pred = predicate_of(between(col("id"), whole(10), whole(5), true, true));
    let ScalarExpr::Binary { op: BinaryOp::And, left, right, .. } = &pred else {
        panic!("expected AND at the root, got {pred:?}");
    };
    for (label, arm) in [("forward", left.as_ref()), ("reversed", right.as_ref())] {
        assert!(
            matches!(arm, ScalarExpr::Binary { op: BinaryOp::Or, .. }),
            "NOT SYMMETRIC {label} arm should be OR, got {arm:?}"
        );
    }
}

#[test]
fn binds_between_rewrite_renders_as_full_tree() {
    // SELECT id FROM users WHERE id BETWEEN 5 AND 10
    let pred = predicate_of(between(col("id"), whole(5), whole(10), false, false));
    assert_eq!(pred.show(), "((id >= 5) AND (id <= 10))");
}

#[test]
fn binds_between_uses_existing_type_check_to_reject_incompatible_bounds() {
    // SELECT id FROM users WHERE name BETWEEN 1 AND 10
    let err = query_err(
        select_where(&["id"], "users", between(col("name"), whole(1), whole(10), false, false)),
        &users_catalog(),
    );
    assert!(matches!(err, PlanError::TypeMismatch(_)), "got {err:?}");
}

#[test]
fn between_binds_for_integer_pairs() {
    for low in [-1_000_000_i64, -1, 0, 7, 1_000_000] {
        for high in [-1_000_000_i64, -1, 0, 7, 1_000_000] {
            for negated in [false, true] {
                let e = between(col("id"), signed(low), signed(high), negated, false);
                let plan = query_in(select_where(&["id"], "users", e), &users_catalog());
                assert!(find_filter(&plan).is_some());
            }
        }
    }
}

fn signed(n: i64) -> Expr {
    if n < 0 {
        Expr::Unary { op: ultrasql_planner::ast::UnaryOp::Neg, expr: Box::new(whole(-n)) }
    } else {
        whole(n)
    }
}

#[test]
fn inserted_rows_keep_their_width() {
    for arity in 1_usize..=6 {
        for count in 1_usize..=4 {
            let names: Vec<String> = (0..arity).map(|i| format!("c{i}")).collect();
            let fields = names.iter().map(|n| nullable(n, DataType::Int32)).collect();
            let mut cat = InMemoryCatalog::new();
            cat.register("t", TableMeta::new(rows(fields)));
            let values = (0..count).map(|_| (0..arity).map(|_| whole(0)).collect()).collect();
            let plan = bind(
                &Statement::Insert(InsertStmt {
                    table: name("t"),
                    columns: names.iter().map(|n| id(n)).collect(),
                    source: InsertSource::Values(values),
                    on_conflict: None,
                    returning: vec![],
                }),
                &cat,
            )
            .expect("bind ok");
            let LogicalPlan::Insert { columns, source, .. } = &plan else {
                panic!("expected Insert");
            };
            assert_eq!(columns.len(), arity);
            let QueryPlan::Values { rows, .. } = source else {
                panic!("expected Values source");
            };
            assert_eq!(rows.len(), count);
            for r in rows {
                assert_eq!(r.len(), arity);
            }
        }
    }
}

// Indexes, dropped and altered tables.

#[test]
fn binds_create_index_resolves_column_index_and_synthesises_name() {
    // CREATE INDEX ON users (id)
    let plan = bind_ok(create_index(None, "users", "id", false, false));
    let LogicalPlan::CreateIndex(index) = plan else {
        panic!("expected CreateIndex plan");
    };
    assert_eq!(index.table_name, "users");
    assert_eq!(index.columns, vec![0]);
    assert!(!index.unique);
    assert!(!index.if_not_exists);
    assert_eq!(index.index_name, "users_id_idx");
}

#[test]
fn binds_create_unique_index_honours_unique_flag_and_explicit_name() {
    // CREATE UNIQUE INDEX IF NOT EXISTS users_pk ON users (id)
    let plan = bind_ok(create_index(Some("users_pk"), "users", "id", true, true));
    let LogicalPlan::CreateIndex(index) = plan else {
        panic!("expected CreateIndex plan");
    };
    assert!(index.unique);
    assert!(index.if_not_exists);
    assert_eq!(index.index_name, "users_pk");
}

#[test]
fn create_index_rejects_unknown_column() {
    // CREATE INDEX bad_idx ON users (does_not_exist)
    let err = bind_err(
        create_index(Some("bad_idx"), "users", "does_not_exist", false, false),
        &users_catalog(),
    );
    assert!(matches!(err, PlanError::ColumnNotFound(_)), "got {err:?}");
}

#[test]
fn create_index_rejects_unknown_table() {
    // CREATE INDEX bad_idx ON nonexistent (id)
    let err = bind_err(
        create_index(Some("bad_idx"), "nonexistent", "id", false, false),
        &users_catalog(),
    );
    assert!(matches!(err, PlanError::TableNotFound(_)), "got {err:?}");
}

#[test]
fn binds_drop_table_with_known_relation() {
    // DROP TABLE users
    let plan = bind_ok(drop_table(&["users"], false));
    let LogicalPlan::DropTable { tables, if_exists, .. } = plan else {
        panic!("expected DropTable plan");
    };
    assert_eq!(tables, vec!["users".to_string()]);
    assert!(!if_exists);
}

#[test]
fn drop_table_if_exists_silently_omits_missing_relations() {
    // DROP TABLE IF EXISTS users, nope
    let plan = bind_ok(drop_table(&["users", "nope"], true));
    let LogicalPlan::DropTable { tables, if_exists, .. } = plan else {
        panic!("expected DropTable plan");
    };
    assert!(if_exists);
    assert_eq!(tables, vec!["users".to_string()]);
}

#[test]
fn drop_table_without_if_exists_rejects_missing_relation() {
    // DROP TABLE nonexistent
    let err = bind_err(drop_table(&["nonexistent"], false), &users_catalog());
    assert!(matches!(err, PlanError::TableNotFound(_)), "got {err:?}");
}

fn add_column(n: &str, t: &str, constraints: Vec<ColumnConstraint>) -> Statement {
    alter_users(AlterTableAction::AddColumn { column: column(n, type_named(t, &[]), constraints) })
}

#[test]
fn binds_alter_table_add_column_resolves_field() {
    // ALTER TABLE users ADD COLUMN extra INTEGER
    let plan = bind_ok(add_column("extra", "integer", vec![]));
    let LogicalPlan::AlterTable { table_name, change, .. } = plan else {
        panic!("expected AlterTable plan");
    };
    assert_eq!(table_name, "users");
    let LogicalAlterTableAction::AddColumn { column, .. } = change else {
        panic!("expected AddColumn");
    };
    assert_eq!(column.name, "extra");
    assert_eq!(column.data_type, DataType::Int32);
    assert!(column.nullable, "ADD COLUMN defaults to nullable");
}

#[test]
fn binds_alter_table_add_column_not_null() {
    // ALTER TABLE users ADD COLUMN flag BOOLEAN NOT NULL
    let plan = bind_ok(add_column("flag", "boolean", vec![ColumnConstraint::NotNull]));
    let LogicalPlan::AlterTable { change, .. } = plan else {
        panic!("expected AlterTable plan");
    };
    let LogicalAlterTableAction::AddColumn { column, .. } = change else {
        panic!("expected AddColumn");
    };
    assert_eq!(column.data_type, DataType::Bool);
    assert!(!column.nullable);
}

#[test]
fn alter_table_add_column_rejects_duplicate_name() {
    // ALTER TABLE users ADD COLUMN id INTEGER
    let err = bind_err(add_column("id", "integer", vec![]), &users_catalog());
    assert!(matches!(err, PlanError::DuplicateColumn(ref c) if c == "id"), "got {err:?}");
}

#[test]
fn alter_table_drop_column_returns_not_supported() {
    // ALTER TABLE users DROP COLUMN score
    let err = bind_err(
        alter_users(AlterTableAction::DropColumn { name: id("score") }),
        &users_catalog(),
    );
    assert!(matches!(err, PlanError::NotSupported(_)), "got {err:?}");
}

#[test]
fn alter_table_rename_returns_not_supported() {
    // ALTER TABLE users RENAME TO subscribers
    let err = bind_err(
        alter_users(AlterTableAction::RenameTable { new_name: id("subscribers") }),
        &users_catalog(),
    );
    assert!(matches!(err, PlanError::NotSupported(_)), "got {err:?}");
}

// Layers and columns of a SELECT.

/// a (`id` INT, `x` TEXT), b (`id` INT8, `val` TEXT) and c (`k` INT).
fn shared_key_catalog() -> InMemoryCatalog {
    let mut cat = InMemoryCatalog::new();
    cat.register(
        "a",
        TableMeta::new(rows(vec![required("id", DataType::Int32), nullable("x", text_type())])),
    );
    cat.register(
        "b",
        TableMeta::new(rows(vec![required("id", DataType::Int64), nullable("val", text_type())])),
    );
    cat.register("c", TableMeta::new(rows(vec![required("k", DataType::Int32)])));
    cat
}

fn aliased(expr: Expr, alias: &str) -> SelectItem {
    SelectItem::Expr { expr, alias: Some(id(alias)) }
}

fn every_column_of(qualifier: &str) -> SelectItem {
    SelectItem::QualifiedWildcard { qualifier: id(qualifier) }
}

/// The column names, positions and types that a plan projects.
fn projected(plan: &QueryPlan) -> Vec<(String, usize, DataType)> {
    let exprs = match plan {
        QueryPlan::Project { exprs, .. } => exprs,
        QueryPlan::Limit { input, .. } => return projected(input),
        other => panic!("expected a projection, got {other:?}"),
    };
    exprs
        .iter()
        .map(|(e, n)| match e {
            ScalarExpr::Column { index, data_type, .. } => (n.clone(), *index, data_type.duplicate()),
            other => panic!("expected a column, got {other:?}"),
        })
        .collect()
}

fn order(expr: Expr, direction: SortDirection, nulls: NullsOrder) -> OrderItem {
    OrderItem { expr, direction, nulls }
}

#[test]
fn a_using_join_offers_its_columns_at_their_places() {
    // SELECT b.* FROM a JOIN b USING (id)
    let joined = join(table("a"), JoinOp::Inner, table("b"), JoinCondition::Using(ids(&["id"])));
    let plan = query_in(select(vec![every_column_of("b")], vec![joined]), &shared_key_catalog());
    assert_eq!(
        projected(&plan),
        vec![("id".to_string(), 0, DataType::Int32), ("val".to_string(), 2, text_type())]
    );
    let QueryPlan::Join { schema, .. } = find_join(&plan).expect("a join") else {
        panic!("expected a join");
    };
    assert_eq!(schema.len(), 3);
}

#[test]
fn columns_behind_a_using_join_follow_its_row() {
    // SELECT c.*, a.* FROM a JOIN b USING (id), c
    let joined = join(table("a"), JoinOp::Inner, table("b"), JoinCondition::Using(ids(&["id"])));
    let plan = query_in(
        select(vec![every_column_of("c"), every_column_of("a")], vec![joined, table("c")]),
        &shared_key_catalog(),
    );
    assert_eq!(
        projected(&plan),
        vec![
            ("k".to_string(), 3, DataType::Int32),
            ("id".to_string(), 0, DataType::Int32),
            ("x".to_string(), 1, text_type()),
        ]
    );
}

#[test]
fn a_full_using_join_makes_its_columns_nullable() {
    let joined = join(table("a"), JoinOp::FullOuter, table("b"), JoinCondition::Using(ids(&["id"])));
    let plan = query_in(select(vec![item(col("x"))], vec![joined]), &shared_key_catalog());
    let QueryPlan::Join { schema, .. } = find_join(&plan).expect("a join") else {
        panic!("expected a join");
    };
    let nulls: Vec<(&str, bool)> =
        schema.fields.iter().map(|f| (f.name.as_str(), f.nullable)).collect();
    assert_eq!(nulls, vec![("id", true), ("x", true), ("val", true)]);
}

#[test]
fn a_wildcard_over_a_cross_join_lists_both_sides() {
    let plan = query_in(
        select(vec![SelectItem::Wildcard], vec![table("a"), table("c")]),
        &shared_key_catalog(),
    );
    assert_eq!(
        projected(&plan),
        vec![
            ("id".to_string(), 0, DataType::Int32),
            ("x".to_string(), 1, text_type()),
            ("k".to_string(), 2, DataType::Int32),
        ]
    );
}

#[test]
fn colliding_join_columns_get_a_suffix() {
    let plan = query_in(
        select(vec![item(col("id_1"))], vec![table("a"), table("b")]),
        &shared_key_catalog(),
    );
    assert_eq!(projected(&plan), vec![("id_1".to_string(), 2, DataType::Int64)]);
}

#[test]
fn an_unknown_wildcard_qualifier_is_an_unknown_table() {
    let err = query_err(select(vec![every_column_of("z")], vec![table("a")]), &shared_key_catalog());
    assert_eq!(err, PlanError::TableNotFound("z".to_string()));
}

#[test]
fn an_unknown_column_is_not_found() {
    let err = query_err(select_columns(&["missing"], "a"), &shared_key_catalog());
    assert_eq!(err, PlanError::ColumnNotFound("missing".to_string()));
}

#[test]
fn a_column_named_twice_is_ambiguous() {
    let row = Schema { fields: vec![required("k", DataType::Int32), required("K", DataType::Text { max_len: None })] };
    let mut cat = InMemoryCatalog::new();
    cat.register("t", TableMeta::new(row));
    let err = query_err(select_columns(&["k"], "t"), &cat);
    assert_eq!(err, PlanError::Ambiguous("k".to_string()));
}

#[test]
fn limits_stand_on_top_of_projections() {
    let s = SelectStmt {
        limit: Some(whole(5)),
        offset: Some(Expr::Paren { expr: Box::new(whole(2)) }),
        order_by: vec![order(col("id"), SortDirection::Desc, NullsOrder::Default)],
        ..select_where(&["id"], "users", equal(col("id"), whole(1)))
    };
    let plan = query_in(s, &users_catalog());
    let QueryPlan::Limit { input, n: 5, offset: 2 } = plan else {
        panic!("expected a limit");
    };
    let QueryPlan::Project { input, .. } = *input else {
        panic!("expected a projection");
    };
    let QueryPlan::Sort { input, keys } = *input else {
        panic!("expected a sort");
    };
    assert_eq!((keys[0].asc, keys[0].nulls_first), (false, true));
    let QueryPlan::Filter { input, .. } = *input else {
        panic!("expected a filter");
    };
    assert!(matches!(*input, QueryPlan::Scan { .. }));
}

#[test]
fn a_lone_offset_limits_to_the_largest_count() {
    let s = SelectStmt { offset: Some(whole(3)), ..select_columns(&["id"], "users") };
    let QueryPlan::Limit { n, offset, .. } = query_in(s, &users_catalog()) else {
        panic!("expected a limit");
    };
    assert_eq!((n, offset), (u64::MAX, 3));
    let zero = SelectStmt { offset: Some(whole(0)), ..select_columns(&["id"], "users") };
    assert!(matches!(query_in(zero, &users_catalog()), QueryPlan::Project { .. }));
}

#[test]
fn a_count_must_be_a_literal_of_64_bits() {
    let big = "18446744073709551616";
    let too_big = Expr::Literal(Literal::Integer { text: big.to_string() });
    let s = SelectStmt { limit: Some(too_big), ..select_columns(&["id"], "users") };
    assert_eq!(
        query_err(s, &users_catalog()),
        PlanError::TypeMismatch(format!("LIMIT must be a non-negative integer, got '{big}'"))
    );
    let s = SelectStmt { offset: Some(col("id")), ..select_columns(&["id"], "users") };
    assert_eq!(
        query_err(s, &users_catalog()),
        PlanError::NotSupported("non-literal LIMIT/OFFSET expressions")
    );
}

#[test]
fn nulls_sort_as_stated_or_by_direction() {
    let s = SelectStmt {
        order_by: vec![
            order(col("id"), SortDirection::Asc, NullsOrder::Default),
            order(col("name"), SortDirection::Desc, NullsOrder::Last),
            order(col("score"), SortDirection::Asc, NullsOrder::First),
        ],
        ..select_columns(&["id"], "users")
    };
    let QueryPlan::Project { input, .. } = query_in(s, &users_catalog()) else {
        panic!("expected a projection");
    };
    let QueryPlan::Sort { keys, .. } = *input else {
        panic!("expected a sort");
    };
    let got: Vec<(bool, bool)> = keys.iter().map(|k| (k.asc, k.nulls_first)).collect();
    assert_eq!(got, vec![(true, false), (false, false), (true, true)]);
}

#[test]
fn select_distinct_is_not_supported() {
    let s = SelectStmt { distinct: Distinct::Distinct, ..select_columns(&["id"], "users") };
    assert_eq!(query_err(s, &users_catalog()), PlanError::NotSupported("SELECT DISTINCT"));
}

#[test]
fn integer_literals_take_the_narrowest_type() {
    let item_of = |t: &str| item(Expr::Literal(Literal::Integer { text: t.to_string() }));
    for (t, value, data_type) in [
        ("2147483647", Value::Int32(i32::MAX), DataType::Int32),
        ("2147483648", Value::Int64(2_147_483_648), DataType::Int64),
        ("9223372036854775807", Value::Int64(i64::MAX), DataType::Int64),
        (
            "9223372036854775808",
            Value::Int64(i64::MAX),
            DataType::Decimal { precision: None, scale: None },
        ),
    ] {
        let plan = query_in(select(vec![item_of(t)], vec![]), &users_catalog());
        let QueryPlan::Project { exprs, .. } = &plan else {
            panic!("expected a projection");
        };
        assert_eq!(exprs[0].0, ScalarExpr::Literal { value, data_type });
    }
}

// Aggregates.

fn aggregates_of(plan: &QueryPlan) -> Vec<(AggregateFunc, String, DataType)> {
    let QueryPlan::Aggregate { aggregates, .. } = find_agg(plan).expect("an aggregation") else {
        panic!("expected an aggregation");
    };
    aggregates.iter().map(|a| (a.func, a.output_name.clone(), a.data_type.duplicate())).collect()
}

#[test]
fn aliased_aggregates_refer_to_their_columns() {
    // SELECT count(*) AS n, -sum(id) AS total FROM users
    let minus = Expr::Unary { op: UnaryOp::Neg, expr: Box::new(call("sum", vec![col("id")])) };
    let plan = query_in(
        select(vec![aliased(count_star(), "n"), aliased(minus, "total")], vec![table("users")]),
        &users_catalog(),
    );
    let QueryPlan::Project { exprs, .. } = &plan else {
        panic!("expected a projection");
    };
    assert_eq!(
        exprs[0],
        (
            ScalarExpr::Column { name: "n".to_string(), index: 0, data_type: DataType::Int64 },
            "n".to_string()
        )
    );
    let ScalarExpr::Unary { expr, .. } = &exprs[1].0 else {
        panic!("expected a negation");
    };
    assert!(matches!(&**expr, ScalarExpr::Column { index: 1, .. }));
    assert_eq!(
        aggregates_of(&plan),
        vec![
            (AggregateFunc::CountStar, "n".to_string(), DataType::Int64),
            (AggregateFunc::Sum, "total".to_string(), DataType::Int64),
        ]
    );
}

fn projected_columns(plan: &QueryPlan) -> Vec<usize> {
    let QueryPlan::Project { exprs, .. } = plan else {
        panic!("expected a projection");
    };
    let index_of = |e: &ScalarExpr| match e {
        ScalarExpr::Column { index, .. } => *index,
        other => panic!("expected a column, got {other:?}"),
    };
    exprs.iter().map(|(e, _)| index_of(e)).collect()
}

#[test]
fn an_aggregate_without_alias_reads_its_own_column() {
    // SELECT sum(id) AS x, sum(score) FROM users
    let plan = query_in(
        select(
            vec![aliased(call("sum", vec![col("id")]), "x"), item(call("sum", vec![col("score")]))],
            vec![table("users")],
        ),
        &users_catalog(),
    );
    assert_eq!(projected_columns(&plan), vec![0, 1]);
    assert_eq!(
        aggregates_of(&plan),
        vec![
            (AggregateFunc::Sum, "x".to_string(), DataType::Int64),
            (AggregateFunc::Sum, "sum".to_string(), DataType::Float64),
        ]
    );
}

#[test]
fn a_grouping_column_is_no_aggregate() {
    // SELECT count, count(*) FROM t GROUP BY count HAVING count(*) > 1
    let mut cat = InMemoryCatalog::new();
    cat.register("t", TableMeta::new(rows(vec![required("count", DataType::Int32)])));
    let plan = query_in(
        SelectStmt {
            group_by: vec![col("count")],
            having: Some(binary(BinaryOp::Gt, count_star(), whole(1))),
            ..select(vec![item(col("count")), item(count_star())], vec![table("t")])
        },
        &cat,
    );
    assert_eq!(projected_columns(&plan), vec![0, 1]);
    let Some(ScalarExpr::Binary { left, .. }) = find_filter(&plan) else {
        panic!("expected a condition on the groups");
    };
    assert!(matches!(&**left, ScalarExpr::Column { index: 1, .. }));
}

#[test]
fn aggregates_are_found_in_every_part_of_a_condition() {
    // SELECT name FROM users GROUP BY name HAVING count(*) BETWEEN 1 AND max(id)
    //     AND min(id) IS NOT NULL
    let range = between(count_star(), whole(1), call("max", vec![col("id")]), false, false);
    let known = Expr::IsNull { expr: Box::new(call("min", vec![col("id")])), negated: true };
    let s = SelectStmt {
        group_by: vec![col("name")],
        having: Some(binary(BinaryOp::And, range, known)),
        ..select_columns(&["name"], "users")
    };
    let plan = query_in(s, &users_catalog());
    let funcs: Vec<AggregateFunc> = aggregates_of(&plan).into_iter().map(|a| a.0).collect();
    assert_eq!(funcs, vec![AggregateFunc::CountStar, AggregateFunc::Max, AggregateFunc::Min]);
}

#[test]
fn an_aggregate_inside_between_aggregates_the_query() {
    let range = between(count_star(), whole(1), whole(3), false, false);
    let plan = query_in(select(vec![item(range)], vec![table("users")]), &users_catalog());
    assert!(find_agg(&plan).is_some());
}

#[test]
fn averages_are_always_doubles() {
    for c in ["id", "name", "score"] {
        let plan = query_in(
            select(vec![item(call("avg", vec![col(c)]))], vec![table("users")]),
            &users_catalog(),
        );
        assert_eq!(
            aggregates_of(&plan),
            vec![(AggregateFunc::Avg, "avg".to_string(), DataType::Float64)]
        );
    }
}

#[test]
fn an_aggregation_gives_its_groups_first() {
    let s = SelectStmt {
        group_by: vec![col("name")],
        ..select(vec![SelectItem::Wildcard, item(count_star())], vec![table("users")])
    };
    let err = query_err(s, &users_catalog());
    assert_eq!(
        err,
        PlanError::TypeMismatch("projection: duplicate column name: count".to_string())
    );
    let s = SelectStmt {
        group_by: vec![col("name")],
        ..select(vec![item(count_star()), item(col("name"))], vec![table("users")])
    };
    assert_eq!(
        projected(&query_in(s, &users_catalog())),
        vec![("count".to_string(), 1, DataType::Int64), ("name".to_string(), 0, text_type())]
    );
}

#[test]
fn an_aggregate_in_where_is_not_supported() {
    let s = select_where(&["id"], "users", equal(count_star(), whole(1)));
    assert_eq!(
        query_err(s, &users_catalog()),
        PlanError::NotSupported("aggregate call outside aggregate context")
    );
}

// Predicates and set operations.

#[test]
fn a_predicate_must_be_boolean() {
    let s = select_where(&["id"], "users", whole(1));
    assert_eq!(
        query_err(s, &users_catalog()),
        PlanError::TypeMismatch("WHERE predicate must be boolean, got integer".to_string())
    );
}

#[test]
fn between_needs_comparable_bounds() {
    let s = select_where(&["id"], "users", between(col("id"), text("a"), whole(3), false, true));
    assert_eq!(
        query_err(s, &users_catalog()),
        PlanError::TypeMismatch("cannot compare integer and text".to_string())
    );
}

fn tail(op: SetOp, quantifier: SetQuantifier, right: SelectStmt) -> SetOpTail {
    SetOpTail { op, quantifier, right: Box::new(right) }
}

#[test]
fn set_operations_join_numeric_types_under_left_names() {
    // SELECT id FROM a UNION ALL SELECT id FROM b
    let s = SelectStmt {
        set_ops: vec![tail(SetOp::Union, SetQuantifier::All, select_columns(&["id"], "b"))],
        ..select_columns(&["id"], "a")
    };
    let plan = query_in(s, &shared_key_catalog());
    let QueryPlan::SetOp { schema, quantifier, .. } = &plan else {
        panic!("expected a set operation");
    };
    assert_eq!(*quantifier, LogicalSetQuantifier::All);
    assert_eq!(schema.fields, vec![nullable("id", DataType::Int64)]);
}

#[test]
fn set_operations_need_equal_widths() {
    let s = SelectStmt {
        set_ops: vec![tail(
            SetOp::Except,
            SetQuantifier::Distinct,
            select_columns(&["id", "val"], "b"),
        )],
        ..select_columns(&["id"], "a")
    };
    assert_eq!(
        query_err(s, &shared_key_catalog()),
        PlanError::TypeMismatch(
            "set operation: left side has 1 columns, right side has 2".to_string()
        )
    );
}

#[test]
fn the_first_cte_is_outermost() {
    let cte = |n: &str, recursive: bool| CteDef {
        name: id(n),
        column_aliases: ids(&["k2"]),
        recursive,
        query: Box::new(select_columns(&["k"], "c")),
    };
    let s = SelectStmt { ctes: vec![cte("One", true), cte("two", false)], ..select_columns(&["k2"], "one") };
    let QueryPlan::Cte { name, recursive, body, schema, .. } = query_in(s, &shared_key_catalog())
    else {
        panic!("expected a common table expression");
    };
    assert_eq!((name.as_str(), recursive), ("one", true));
    assert_eq!(schema.fields[0].name, "k2");
    let QueryPlan::Cte { name, recursive, .. } = *body else {
        panic!("expected a second one");
    };
    assert_eq!((name.as_str(), recursive), ("two", false));
}

#[test]
fn aliases_rename_the_columns_of_a_subquery() {
    let sub = TableRef::Subquery {
        select: Box::new(select_columns(&["id", "x"], "a")),
        alias: id("s"),
        column_aliases: ids(&["first"]),
    };
    let plan = query_in(select(vec![SelectItem::Wildcard], vec![sub]), &shared_key_catalog());
    assert_eq!(
        projected(&plan),
        vec![("first".to_string(), 0, DataType::Int32), ("x".to_string(), 1, text_type())]
    );
}

#[test]
fn a_column_two_queries_out_has_depth_two() {
    // SELECT id FROM a WHERE EXISTS (SELECT k FROM c WHERE EXISTS (SELECT val FROM b WHERE x = val))
    let exists_in = |s: SelectStmt| Expr::Exists { select: Box::new(s), negated: false };
    let inner = select_where(&["val"], "b", equal(col("x"), col("val")));
    let middle = select_where(&["k"], "c", exists_in(inner));
    let plan = query_in(select_where(&["id"], "a", exists_in(middle)), &shared_key_catalog());
    let Some(ScalarExpr::Exists { subplan, correlated: true, .. }) = find_filter(&plan) else {
        panic!("expected a correlated test");
    };
    let Some(ScalarExpr::Exists { subplan, correlated: true, .. }) = find_filter(subplan) else {
        panic!("expected a correlated test");
    };
    let Some(ScalarExpr::Binary { left, .. }) = find_filter(subplan) else {
        panic!("expected a comparison");
    };
    assert!(matches!(
        &**left,
        ScalarExpr::OuterColumn { frame_depth: 2, column_index: 1, .. }
    ));
}

// Definitions.

#[test]
fn a_primary_key_holds_no_nulls_whatever_else_is_stated() {
    let made = created_columns(vec![
        int_column("a", vec![ColumnConstraint::PrimaryKey { name: None }, ColumnConstraint::Null]),
        int_column("b", vec![ColumnConstraint::NotNull, ColumnConstraint::Null]),
        int_column("c", vec![ColumnConstraint::Null]),
    ]);
    let nulls: Vec<bool> = made.fields.iter().map(|f| f.nullable).collect();
    assert_eq!(nulls, vec![false, false, true]);
}

#[test]
fn a_table_needs_columns() {
    assert!(matches!(create_err(vec![]), PlanError::NotSupported(_)));
}

#[test]
fn an_index_over_two_columns_is_named_after_both() {
    let Statement::CreateIndex(mut s) = create_index(None, "users", "id", false, false) else {
        panic!("expected an index");
    };
    s.columns.push(IndexKey { expr: col("NAME"), opclass: None });
    let LogicalPlan::CreateIndex(made) = bind_ok(Statement::CreateIndex(s)) else {
        panic!("expected an index");
    };
    assert_eq!(made.index_name, "users_id_name_idx");
    assert_eq!(made.columns, vec![0, 1]);
}

#[test]
fn an_excluded_row_is_refused_on_conflict() {
    let on = OnConflict::DoUpdate {
        target: ConflictColumns { columns: ids(&["id"]) },
        set: vec![assign("name", col("excluded.name"))],
        where_clause: None,
    };
    let stmt = insert_on(
        &["id"],
        InsertSource::Values(vec![vec![whole(1)]]),
        Some(on),
    );
    assert_eq!(
        bind_err(stmt, &users_catalog()),
        PlanError::NotSupported("EXCLUDED in ON CONFLICT DO UPDATE")
    );
}

fn insert_with_predicate(predicate: Expr) -> Statement {
    let on = OnConflict::DoUpdate {
        target: ConflictColumns { columns: ids(&["id"]) },
        set: vec![assign("name", text("x"))],
        where_clause: Some(predicate),
    };
    insert_on(&["id"], InsertSource::Values(vec![vec![whole(1)]]), Some(on))
}

fn any_row(s: SelectStmt) -> Expr {
    Expr::Exists { select: Box::new(s), negated: false }
}

#[test]
fn an_excluded_row_is_refused_in_the_predicate() {
    let refused = PlanError::NotSupported("EXCLUDED in ON CONFLICT DO UPDATE");
    let plain = equal(col("excluded.name"), text("y"));
    assert_eq!(bind_err(insert_with_predicate(plain), &users_catalog()), refused);
    let inner = select_where(&["id"], "users", equal(col("Excluded.id"), whole(1)));
    assert_eq!(bind_err(insert_with_predicate(any_row(inner)), &users_catalog()), refused);
}

#[test]
fn a_table_called_excluded_is_not_the_excluded_row() {
    // .. WHERE EXISTS (SELECT excluded.id FROM users AS excluded)
    let inner = select(vec![item(col("excluded.id"))], vec![table_as("users", "excluded")]);
    let LogicalPlan::Insert { on_conflict, .. } = bind_ok(insert_with_predicate(any_row(inner)))
    else {
        panic!("expected an insert");
    };
    assert!(matches!(
        on_conflict,
        Some(LogicalOnConflict::DoUpdate { where_clause: Some(ScalarExpr::Exists { .. }), .. })
    ));
}

#[test]
fn collected_aggregates_stay_when_binding_fails() {
    let row = rows(vec![nullable("id", DataType::Int32)]);
    let cat = users_catalog();
    let mut scope = ScopeStack::new();
    let mut out = Vec::new();
    let sum = || call("sum", vec![col("id")]);
    assert_eq!(collect_aggregates(&sum(), &None, &row, &mut out, &cat, &mut scope), Ok(()));
    assert_eq!(
        collect_aggregates(
            &binary(BinaryOp::Add, count_star(), call("max", vec![col("nowhere")])),
            &None,
            &row,
            &mut out,
            &cat,
            &mut scope,
        ),
        Err(PlanError::ColumnNotFound("nowhere".to_string()))
    );
    assert_eq!(
        out.iter().map(|a| a.output_name.as_str()).collect::<Vec<_>>(),
        vec!["sum", "count"]
    );
    let both = binary(BinaryOp::Add, sum(), count_star());
    assert_eq!(collect_aggregates(&both, &None, &row, &mut out, &cat, &mut scope), Ok(()));
    assert_eq!(out.len(), 2);
}

#[test]
fn a_column_listed_twice_is_a_duplicate() {
    let stmt = insert(&["id", "ID"], InsertSource::Values(vec![vec![whole(1), whole(2)]]));
    assert_eq!(bind_err(stmt, &users_catalog()), PlanError::DuplicateColumn("ID".to_string()));
}

//! The syntax tree of SQL statements, as a parser hands it to the binder.
use crate::value::FloatValue;
use vstd::prelude::*;

verus! {

/// A name as written.
#[derive(Debug, PartialEq)]
pub struct Identifier {
    pub value: String,
}

/// A possibly qualified name: `t`, `s.t`, `c.s.t`.
#[derive(Debug, PartialEq)]
pub struct ObjectName {
    pub parts: Vec<Identifier>,
}

/// A type as written, with its modifiers.
#[derive(Debug, PartialEq)]
pub struct TypeName {
    pub name: Identifier,
    pub type_modifiers: Vec<u32>,
    pub is_array: bool,
    pub array_dimensions: usize,
}

/// A literal. The scanner hands a float literal over with its text and with
/// the number that it read from that text.
#[derive(Debug, PartialEq)]
pub enum Literal {
    Null,
    Bool { value: bool },
    Integer { text: String },
    Float { text: String, value: FloatValue },
    Text { value: String },
    Typed { ty: String, value: String, unit: Option<String> },
}

#[derive(Debug, Clone, Copy, PartialEq, Eq, Structural)]
pub enum UnaryOp {
    Neg,
    Pos,
    Not,
    BitNot,
}

#[derive(Debug, Clone, Copy, PartialEq, Eq, Structural)]
pub enum BinaryOp {
    Add,
    Sub,
    Mul,
    Div,
    Mod,
    Pow,
    Concat,
    Eq,
    NotEq,
    Lt,
    LtEq,
    Gt,
    GtEq,
    And,
    Or,
    Like,
    NotLike,
    Ilike,
    NotIlike,
    RegexMatch,
    RegexIMatch,
    RegexNotMatch,
    RegexNotIMatch,
    BitAnd,
    BitOr,
    BitXor,
    ShiftLeft,
    ShiftRight,
    JsonGet,
    JsonGetText,
    JsonGetPath,
    JsonGetPathText,
    JsonContains,
    JsonContained,
    JsonHasKey,
    JsonHasAnyKey,
    JsonHasAllKeys,
    Overlap,
}

#[derive(Debug, Clone, Copy, PartialEq, Eq, Structural)]
pub enum SortDirection {
    Asc,
    Desc,
}

#[derive(Debug, Clone, Copy, PartialEq, Eq, Structural)]
pub enum NullsOrder {
    First,
    Last,
    Default,
}

#[derive(Debug, Clone, Copy, PartialEq, Eq, Structural)]
pub enum JoinOp {
    Inner,
    LeftOuter,
    RightOuter,
    FullOuter,
    Cross,
}

#[derive(Debug, Clone, Copy, PartialEq, Eq, Structural)]
pub enum SetOp {
    Union,
    Intersect,
    Except,
}

#[derive(Debug, Clone, Copy, PartialEq, Eq, Structural)]
pub enum SetQuantifier {
    All,
    Distinct,
}

/// One key of an `ORDER BY` or `WITHIN GROUP` list.
#[derive(Debug, PartialEq)]
pub struct OrderItem {
    pub expr: Expr,
    pub direction: SortDirection,
    pub nulls: NullsOrder,
}

/// The `OVER (..)` clause of a window call.
#[derive(Debug, PartialEq)]
pub struct WindowSpec {
    pub partition_by: Vec<Expr>,
    pub order_by: Vec<OrderItem>,
}

/// A scalar expression.
#[derive(Debug, PartialEq)]
pub enum Expr {
    Literal(Literal),
    Column { name: ObjectName },
    Parameter { index: u32 },
    Paren { expr: Box<Expr> },
    Unary { op: UnaryOp, expr: Box<Expr> },
    Binary { op: BinaryOp, left: Box<Expr>, right: Box<Expr> },
    IsNull { expr: Box<Expr>, negated: bool },
    Call {
        name: ObjectName,
        args: Vec<Expr>,
        distinct: bool,
        within_group: Option<Vec<OrderItem>>,
        over: Option<WindowSpec>,
    },
    Cast { expr: Box<Expr>, target: Identifier },
    PostfixCast { expr: Box<Expr>, target: Identifier },
    Subquery { select: Box<SelectStmt> },
    Exists { select: Box<SelectStmt>, negated: bool },
    InSubquery { expr: Box<Expr>, select: Box<SelectStmt>, negated: bool },
    Any { expr: Box<Expr>, op: BinaryOp, select: Box<SelectStmt> },
    AnyArray { expr: Box<Expr>, op: BinaryOp, array: Box<Expr> },
    All { expr: Box<Expr>, op: BinaryOp, select: Box<SelectStmt> },
    Between { expr: Box<Expr>, low: Box<Expr>, high: Box<Expr>, negated: bool, symmetric: bool },
    InList { expr: Box<Expr>, items: Vec<Expr>, negated: bool },
    Case {
        operand: Option<Box<Expr>>,
        branches: Vec<(Expr, Expr)>,
        else_expr: Option<Box<Expr>>,
    },
    Coalesce { args: Vec<Expr> },
    NullIf { a: Box<Expr>, b: Box<Expr> },
    Greatest { args: Vec<Expr> },
    Least { args: Vec<Expr> },
    IsBoolean { expr: Box<Expr>, value: bool, is_unknown: bool, negated: bool },
    IsDistinctFrom { left: Box<Expr>, right: Box<Expr>, negated: bool },
    Row { fields: Vec<Expr> },
    ArrayLiteral { elements: Vec<Expr> },
    ArraySubscript { expr: Box<Expr>, index: Box<Expr> },
    ArraySlice { expr: Box<Expr>, lower: Option<Box<Expr>>, upper: Option<Box<Expr>> },
    Collate { expr: Box<Expr>, collation: ObjectName },
    AtTimeZone { expr: Box<Expr>, zone: Box<Expr> },
    Default,
}

#[derive(Debug, PartialEq)]
pub enum SelectItem {
    Wildcard,
    QualifiedWildcard { qualifier: Identifier },
    Expr { expr: Expr, alias: Option<Identifier> },
}

#[derive(Debug, PartialEq)]
pub enum Distinct {
    Absent,
    All,
    Distinct,
    On(Vec<Expr>),
}

#[derive(Debug, PartialEq)]
pub enum JoinCondition {
    Absent,
    On(Expr),
    Using(Vec<Identifier>),
}

/// An item of a `FROM` list.
#[derive(Debug, PartialEq)]
pub enum TableRef {
    Named { name: ObjectName, alias: Option<Identifier> },
    Subquery { select: Box<SelectStmt>, alias: Identifier, column_aliases: Vec<Identifier> },
    Join { left: Box<TableRef>, op: JoinOp, right: Box<TableRef>, condition: JoinCondition },
}

/// A common table expression: `name (columns) AS (query)`.
#[derive(Debug, PartialEq)]
pub struct CteDef {
    pub name: Identifier,
    pub column_aliases: Vec<Identifier>,
    pub recursive: bool,
    pub query: Box<SelectStmt>,
}

/// `UNION`, `INTERSECT` or `EXCEPT` and its right-hand query.
#[derive(Debug, PartialEq)]
pub struct SetOpTail {
    pub op: SetOp,
    pub quantifier: SetQuantifier,
    pub right: Box<SelectStmt>,
}

#[derive(Debug, PartialEq)]
pub struct SelectStmt {
    pub ctes: Vec<CteDef>,
    pub distinct: Distinct,
    pub projection: Vec<SelectItem>,
    pub from: Vec<TableRef>,
    pub where_clause: Option<Expr>,
    pub group_by: Vec<Expr>,
    pub having: Option<Expr>,
    pub set_ops: Vec<SetOpTail>,
    pub order_by: Vec<OrderItem>,
    pub limit: Option<Expr>,
    pub offset: Option<Expr>,
}

#[derive(Debug, PartialEq)]
pub struct Assignment {
    pub target: Identifier,
    pub value: Expr,
}

#[derive(Debug, PartialEq)]
pub struct ConflictColumns {
    pub columns: Vec<Identifier>,
}

#[derive(Debug, PartialEq)]
pub enum OnConflict {
    DoNothing { target: Option<ConflictColumns> },
    DoUpdate { target: ConflictColumns, set: Vec<Assignment>, where_clause: Option<Expr> },
}

#[derive(Debug, PartialEq)]
pub enum InsertSource {
    DefaultValues,
    Values(Vec<Vec<Expr>>),
    Select(Box<SelectStmt>),
}

#[derive(Debug, PartialEq)]
pub struct InsertStmt {
    pub table: ObjectName,
    pub columns: Vec<Identifier>,
    pub source: InsertSource,
    pub on_conflict: Option<OnConflict>,
    pub returning: Vec<SelectItem>,
}

#[derive(Debug, PartialEq)]
pub struct UpdateStmt {
    pub table: ObjectName,
    pub set: Vec<Assignment>,
    pub from: Vec<TableRef>,
    pub where_clause: Option<Expr>,
    pub returning: Vec<SelectItem>,
}

#[derive(Debug, PartialEq)]
pub struct DeleteStmt {
    pub table: ObjectName,
    pub using: Vec<TableRef>,
    pub where_clause: Option<Expr>,
    pub returning: Vec<SelectItem>,
}

#[derive(Debug, Clone, Copy, PartialEq, Eq, Structural)]
pub enum MergeMatchKind {
    Matched,
    NotMatched,
}

#[derive(Debug, PartialEq)]
pub enum MergeAction {
    Update { set: Vec<Assignment> },
    Delete,
    Insert { columns: Vec<Identifier>, values: Vec<Expr> },
}

#[derive(Debug, PartialEq)]
pub struct MergeClause {
    pub kind: MergeMatchKind,
    pub condition: Option<Expr>,
    pub action: MergeAction,
}

#[derive(Debug, PartialEq)]
pub struct MergeStmt {
    pub target: ObjectName,
    pub target_alias: Option<Identifier>,
    pub source: TableRef,
    pub on: Expr,
    pub clauses: Vec<MergeClause>,
}

#[derive(Debug, Clone, Copy, PartialEq, Eq, Structural)]
pub enum ReferentialAction {
    NoAction,
    Restrict,
    Cascade,
    SetNull,
    SetDefault,
}

#[derive(Debug, Clone, Copy, PartialEq, Eq, Structural)]
pub enum SequenceOption {
    Start(i64),
    Restart(Option<i64>),
    Increment(i64),
    MinValue(Option<i64>),
    MaxValue(Option<i64>),
    Cache(i64),
    Cycle(bool),
}

#[derive(Debug, PartialEq)]
pub enum ColumnConstraint {
    Null,
    NotNull,
    Default { expr: Expr },
    Unique { name: Option<Identifier> },
    PrimaryKey { name: Option<Identifier> },
    Check { name: Option<Identifier>, expr: Expr },
    References {
        name: Option<Identifier>,
        target_table: ObjectName,
        target_columns: Vec<Identifier>,
        on_delete: ReferentialAction,
        on_update: ReferentialAction,
        deferrable: bool,
        initially_deferred: bool,
    },
    GeneratedIdentity { always: bool, options: Vec<SequenceOption> },
    GeneratedStored { expr: Expr },
}

#[derive(Debug, PartialEq)]
pub struct ColumnDef {
    pub name: Identifier,
    pub data_type: TypeName,
    pub collation: Option<ObjectName>,
    pub constraints: Vec<ColumnConstraint>,
}

#[derive(Debug, PartialEq)]
pub struct ExcludeElement {
    pub column: Identifier,
    pub op: BinaryOp,
}

#[derive(Debug, PartialEq)]
pub enum TableConstraint {
    Check { name: Option<Identifier>, expr: Expr },
    Unique { name: Option<Identifier>, columns: Vec<Identifier> },
    PrimaryKey { name: Option<Identifier>, columns: Vec<Identifier> },
    ForeignKey {
        name: Option<Identifier>,
        columns: Vec<Identifier>,
        target_table: ObjectName,
        target_columns: Vec<Identifier>,
        on_delete: ReferentialAction,
        on_update: ReferentialAction,
        deferrable: bool,
        initially_deferred: bool,
    },
    Exclude { name: Option<Identifier>, method: Identifier, elements: Vec<ExcludeElement> },
}

#[derive(Debug, PartialEq)]
pub struct TablePartitionSpec {
    pub column: Identifier,
}

#[derive(Debug, PartialEq)]
pub struct CreateTableStmt {
    pub name: ObjectName,
    pub if_not_exists: bool,
    pub columns: Vec<ColumnDef>,
    pub table_constraints: Vec<TableConstraint>,
    pub partition_by: Option<TablePartitionSpec>,
}

#[derive(Debug, PartialEq)]
pub struct IndexKey {
    pub expr: Expr,
    pub opclass: Option<Identifier>,
}

/// A `name = value` entry of a `WITH (..)` or `SET (..)` list.
#[derive(Debug, PartialEq)]
pub struct StorageOption {
    pub name: Identifier,
    pub value: Expr,
}

#[derive(Debug, PartialEq)]
pub struct CreateIndexStmt {
    pub name: Option<Identifier>,
    pub table: ObjectName,
    pub columns: Vec<IndexKey>,
    pub unique: bool,
    pub if_not_exists: bool,
    pub concurrently: bool,
    pub aggregating: bool,
    pub method: Option<Identifier>,
    pub covering: Vec<Identifier>,
    pub where_clause: Option<Expr>,
    pub options: Vec<StorageOption>,
}

#[derive(Debug, PartialEq)]
pub struct DropTableStmt {
    pub names: Vec<ObjectName>,
    pub if_exists: bool,
    pub cascade: bool,
}

#[derive(Debug, PartialEq)]
pub struct DropIndexStmt {
    pub names: Vec<ObjectName>,
    pub if_exists: bool,
    pub cascade: bool,
}

#[derive(Debug, PartialEq)]
pub enum AlterTableAction {
    AddColumn { column: ColumnDef },
    DropColumn { name: Identifier },
    RenameColumn { old_name: Identifier, new_name: Identifier },
    RenameTable { new_name: Identifier },
    EnableRowLevelSecurity,
    SetOptions { options: Vec<StorageOption> },
    AddConstraint { constraint: TableConstraint },
    DropConstraint { name: Identifier, if_exists: bool, cascade: bool },
    AlterColumnSetNotNull { column: Identifier },
    AlterColumnDropNotNull { column: Identifier },
    AlterColumnSetDefault { column: Identifier, expr: Expr },
    AlterColumnDropDefault { column: Identifier },
}

#[derive(Debug, PartialEq)]
pub struct AlterTableStmt {
    pub name: ObjectName,
    pub action: AlterTableAction,
}

#[derive(Debug, PartialEq)]
pub struct TruncateStmt {
    pub tables: Vec<ObjectName>,
    pub restart_identity: bool,
    pub cascade: bool,
}

#[derive(Debug, PartialEq)]
pub struct SavepointStmt {
    pub name: Identifier,
}

#[derive(Debug, PartialEq)]
pub struct CreateSequenceStmt {
    pub name: ObjectName,
    pub options: Vec<SequenceOption>,
    pub if_not_exists: bool,
}

#[derive(Debug, PartialEq)]
pub struct AlterSequenceStmt {
    pub name: ObjectName,
    pub options: Vec<SequenceOption>,
}

#[derive(Debug, PartialEq)]
pub struct DropSequenceStmt {
    pub names: Vec<ObjectName>,
    pub if_exists: bool,
    pub cascade: bool,
}

#[derive(Debug, PartialEq)]
pub struct CreateSchemaStmt {
    pub name: Identifier,
    pub if_not_exists: bool,
}

#[derive(Debug, PartialEq)]
pub struct DropSchemaStmt {
    pub names: Vec<Identifier>,
    pub if_exists: bool,
    pub cascade: bool,
}

#[derive(Debug, Clone, Copy, PartialEq, Eq, Structural)]
pub enum RoleStmtKind {
    Role,
    User,
}

#[derive(Debug, PartialEq)]
pub enum RoleOption {
    Superuser(bool),
    Inherit(bool),
    CreateRole(bool),
    CreateDb(bool),
    Login(bool),
    Replication(bool),
    BypassRls(bool),
    ConnectionLimit(i32),
    Password(Option<String>),
    ValidUntil(String),
}

#[derive(Debug, PartialEq)]
pub struct CreateRoleStmt {
    pub kind: RoleStmtKind,
    pub name: Identifier,
    pub options: Vec<RoleOption>,
    pub if_not_exists: bool,
}

#[derive(Debug, PartialEq)]
pub struct AlterRoleStmt {
    pub kind: RoleStmtKind,
    pub name: Identifier,
    pub options: Vec<RoleOption>,
}

#[derive(Debug, PartialEq)]
pub struct DropRoleStmt {
    pub kind: RoleStmtKind,
    pub names: Vec<Identifier>,
    pub if_exists: bool,
    pub cascade: bool,
}

#[derive(Debug, PartialEq)]
pub enum CommentTarget {
    Table(ObjectName),
    Index(ObjectName),
    Column(ObjectName),
}

#[derive(Debug, PartialEq)]
pub struct CommentStmt {
    pub target: CommentTarget,
    pub comment: Option<String>,
}

#[derive(Debug, PartialEq)]
pub struct CompositeAttribute {
    pub name: Identifier,
    pub data_type: TypeName,
}

#[derive(Debug, PartialEq)]
pub enum CreateTypeKind {
    Enum { labels: Vec<String> },
    Composite { attributes: Vec<CompositeAttribute> },
}

#[derive(Debug, PartialEq)]
pub struct CreateTypeStmt {
    pub name: ObjectName,
    pub kind: CreateTypeKind,
}

#[derive(Debug, PartialEq)]
pub enum DomainConstraint {
    NotNull,
    Null,
    Check { name: Option<Identifier>, expr: Expr },
}

#[derive(Debug, PartialEq)]
pub struct CreateDomainStmt {
    pub name: ObjectName,
    pub data_type: TypeName,
    pub constraints: Vec<DomainConstraint>,
}

#[derive(Debug, PartialEq)]
pub struct CreateOperatorStmt {
    pub name: String,
    pub left_arg: Option<TypeName>,
    pub right_arg: Option<TypeName>,
    pub procedure: ObjectName,
}

#[derive(Debug, Clone, Copy, PartialEq, Eq, Structural)]
pub enum PolicyPermissiveness {
    Permissive,
    Restrictive,
}

#[derive(Debug, Clone, Copy, PartialEq, Eq, Structural)]
pub enum PolicyCommand {
    All,
    Select,
    Insert,
    Update,
    Delete,
}

#[derive(Debug, PartialEq)]
pub struct CreatePolicyStmt {
    pub name: Identifier,
    pub table: ObjectName,
    pub permissiveness: PolicyPermissiveness,
    pub command: PolicyCommand,
    pub roles: Vec<Identifier>,
    pub using: Option<Expr>,
    pub with_check: Option<Expr>,
}

#[derive(Debug, PartialEq)]
pub struct CreateViewStmt {
    pub name: ObjectName,
    pub columns: Vec<Identifier>,
    pub source: Box<SelectStmt>,
    pub source_sql: String,
    pub or_replace: bool,
}

#[derive(Debug, PartialEq)]
pub struct CreateMaterializedViewStmt {
    pub name: ObjectName,
    pub columns: Vec<Identifier>,
    pub source: Box<SelectStmt>,
    pub if_not_exists: bool,
}

#[derive(Debug, PartialEq)]
pub enum AlterViewAction {
    RenameView { new_name: Identifier },
    SetSchema { schema_name: Identifier },
    ReplaceDefinition { source: Box<SelectStmt> },
}

#[derive(Debug, PartialEq)]
pub struct AlterViewStmt {
    pub name: ObjectName,
    pub action: AlterViewAction,
}

#[derive(Debug, Clone, Copy, PartialEq, Eq, Structural)]
pub enum CopyDirection {
    From,
    To,
}

#[derive(Debug, PartialEq)]
pub enum CopySource {
    Stdin,
    Stdout,
    File(String),
}

#[derive(Debug, Clone, Copy, PartialEq, Eq, Structural)]
pub enum CopyFormat {
    Text,
    Csv,
    Binary,
    Parquet,
}

#[derive(Debug, PartialEq)]
pub enum CopyOption {
    Format(CopyFormat),
    Delimiter(char),
    Header(bool),
    AutoDetect(bool),
    IgnoreErrors(bool),
    MaxErrors(u64),
    RejectTable(String),
    Null(String),
}

#[derive(Debug, PartialEq)]
pub struct CopyStmt {
    pub table: Option<ObjectName>,
    pub query: Option<Box<SelectStmt>>,
    pub columns: Vec<Identifier>,
    pub direction: CopyDirection,
    pub source: CopySource,
    pub format: CopyFormat,
    pub options: Vec<CopyOption>,
}

/// A statement.
#[derive(Debug, PartialEq)]
pub enum Statement {
    Select(SelectStmt),
    Insert(InsertStmt),
    Update(UpdateStmt),
    Delete(DeleteStmt),
    Merge(MergeStmt),
    Truncate(TruncateStmt),
    CreateTable(CreateTableStmt),
    CreateIndex(CreateIndexStmt),
    DropTable(DropTableStmt),
    DropIndex(DropIndexStmt),
    AlterTable(AlterTableStmt),
    CreateSequence(CreateSequenceStmt),
    AlterSequence(AlterSequenceStmt),
    DropSequence(DropSequenceStmt),
    CreateSchema(CreateSchemaStmt),
    DropSchema(DropSchemaStmt),
    CreateRole(CreateRoleStmt),
    AlterRole(AlterRoleStmt),
    DropRole(DropRoleStmt),
    Comment(CommentStmt),
    CreateType(CreateTypeStmt),
    CreateDomain(CreateDomainStmt),
    CreateOperator(CreateOperatorStmt),
    CreatePolicy(CreatePolicyStmt),
    CreateView(CreateViewStmt),
    CreateMaterializedView(CreateMaterializedViewStmt),
    AlterView(AlterViewStmt),
    Copy(CopyStmt),
    Begin,
    Commit,
    Rollback,
    Savepoint(SavepointStmt),
    RollbackToSavepoint(SavepointStmt),
    ReleaseSavepoint(SavepointStmt),
    PrepareTransaction { gid: String },
    CommitPrepared { gid: String },
    RollbackPrepared { gid: String },
}

} // verus!

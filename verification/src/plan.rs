//! Plans of whole statements and their models.
use crate::ast::{BinaryOp, CopyDirection, CopyFormat};
use crate::datatype::{DataType, DataTypeView};
use crate::list;
use crate::query;
use crate::query::{AggregateFunc, QueryPlan, QueryPlanView, ScalarExpr, ScalarExprView};
use crate::schema::{Field, FieldView, Schema, SchemaView};
use vstd::prelude::*;

verus! {

/// The rows that a `MERGE` branch is for.
#[derive(Debug, Clone, Copy, PartialEq, Eq, Structural)]
pub enum LogicalMergeMatchKind {
    Matched,
    NotMatched,
}

/// An index access method.
#[derive(Debug, Clone, Copy, PartialEq, Eq, Structural)]
pub enum LogicalIndexMethod {
    Btree,
    Hash,
    Gin,
    Gist,
    Brin,
    Hnsw,
    IvfFlat,
    Aggregating,
}

/// What a foreign key does when the referenced row changes.
#[derive(Debug, Clone, Copy, PartialEq, Eq, Structural)]
pub enum LogicalReferentialAction {
    NoAction,
    Restrict,
    Cascade,
    SetNull,
    SetDefault,
}

/// `ROLE` or `USER`.
#[derive(Debug, Clone, Copy, PartialEq, Eq, Structural)]
pub enum LogicalRoleKind {
    Role,
    User,
}

/// How row policies combine.
#[derive(Debug, Clone, Copy, PartialEq, Eq, Structural)]
pub enum LogicalRlsPermissiveness {
    Permissive,
    Restrictive,
}

/// The command that a row policy is for.
#[derive(Debug, Clone, Copy, PartialEq, Eq, Structural)]
pub enum LogicalRlsCommand {
    All,
    Select,
    Insert,
    Update,
    Delete,
}

/// The options of a sequence.
#[derive(Debug, Clone, Copy, PartialEq, Eq, Structural)]
pub struct LogicalSequenceOptions {
    pub start: i64,
    pub increment: i64,
    pub min: Option<i64>,
    pub max: Option<i64>,
    pub cache: u32,
    pub cycle: bool,
}

/// The options of a sequence that a statement changes.
#[derive(Debug, Clone, Copy, PartialEq, Eq, Structural)]
pub struct LogicalSequenceChange {
    pub start: Option<i64>,
    pub restart: Option<Option<i64>>,
    pub increment: Option<i64>,
    pub min: Option<Option<i64>>,
    pub max: Option<Option<i64>>,
    pub cache: Option<u32>,
    pub cycle: Option<bool>,
}

/// One element of an exclusion constraint.
#[derive(Debug, Clone, Copy, PartialEq, Eq, Structural)]
pub struct LogicalExclusionElement {
    pub column: usize,
    pub op: BinaryOp,
}

/// A unique or primary-key constraint.
#[derive(Debug, PartialEq)]
pub struct LogicalUniqueConstraint {
    pub name: String,
    pub columns: Vec<usize>,
    pub primary_key: bool,
}

/// The model of a [`LogicalUniqueConstraint`].
pub struct LogicalUniqueConstraintView {
    pub name: Seq<char>,
    pub columns: Seq<usize>,
    pub primary_key: bool,
}

impl LogicalUniqueConstraint {
    pub open spec fn view(&self) -> LogicalUniqueConstraintView {
        LogicalUniqueConstraintView {
            name: self.name@,
            columns: self.columns@,
            primary_key: self.primary_key,
        }
    }

}

/// A foreign key.
#[derive(Debug, PartialEq)]
pub struct LogicalForeignKeyConstraint {
    pub name: String,
    pub columns: Vec<usize>,
    pub target_table: String,
    pub target_columns: Vec<usize>,
    pub on_delete: LogicalReferentialAction,
    pub on_update: LogicalReferentialAction,
    pub deferrable: bool,
    pub initially_deferred: bool,
}

/// The model of a [`LogicalForeignKeyConstraint`].
pub struct LogicalForeignKeyConstraintView {
    pub name: Seq<char>,
    pub columns: Seq<usize>,
    pub target_table: Seq<char>,
    pub target_columns: Seq<usize>,
    pub on_delete: LogicalReferentialAction,
    pub on_update: LogicalReferentialAction,
    pub deferrable: bool,
    pub initially_deferred: bool,
}

impl LogicalForeignKeyConstraint {
    pub open spec fn view(&self) -> LogicalForeignKeyConstraintView {
        LogicalForeignKeyConstraintView {
            name: self.name@,
            columns: self.columns@,
            target_table: self.target_table@,
            target_columns: self.target_columns@,
            on_delete: self.on_delete,
            on_update: self.on_update,
            deferrable: self.deferrable,
            initially_deferred: self.initially_deferred,
        }
    }

}

/// An exclusion constraint.
#[derive(Debug, PartialEq)]
pub struct LogicalExclusionConstraint {
    pub name: String,
    pub method: LogicalIndexMethod,
    pub elements: Vec<LogicalExclusionElement>,
}

/// The model of a [`LogicalExclusionConstraint`].
pub struct LogicalExclusionConstraintView {
    pub name: Seq<char>,
    pub method: LogicalIndexMethod,
    pub elements: Seq<LogicalExclusionElement>,
}

impl LogicalExclusionConstraint {
    pub open spec fn view(&self) -> LogicalExclusionConstraintView {
        LogicalExclusionConstraintView {
            name: self.name@,
            method: self.method,
            elements: self.elements@,
        }
    }

}

/// Partitioning by ranges of a time column.
#[derive(Debug, PartialEq)]
pub struct LogicalTimePartition {
    pub column: String,
    pub column_index: usize,
}

/// The model of a [`LogicalTimePartition`].
pub struct LogicalTimePartitionView {
    pub column: Seq<char>,
    pub column_index: usize,
}

impl LogicalTimePartition {
    pub open spec fn view(&self) -> LogicalTimePartitionView {
        LogicalTimePartitionView {
            column: self.column@,
            column_index: self.column_index,
        }
    }

}

/// An option of an index.
#[derive(Debug, PartialEq)]
pub struct LogicalIndexOption {
    pub name: String,
    pub value: String,
}

/// The model of a [`LogicalIndexOption`].
pub struct LogicalIndexOptionView {
    pub name: Seq<char>,
    pub value: Seq<char>,
}

impl LogicalIndexOption {
    pub open spec fn view(&self) -> LogicalIndexOptionView {
        LogicalIndexOptionView {
            name: self.name@,
            value: self.value@,
        }
    }

}

/// An option of a table.
#[derive(Debug, PartialEq)]
pub struct LogicalTableOption {
    pub name: String,
    pub value: String,
}

/// The model of a [`LogicalTableOption`].
pub struct LogicalTableOptionView {
    pub name: Seq<char>,
    pub value: Seq<char>,
}

impl LogicalTableOption {
    pub open spec fn view(&self) -> LogicalTableOptionView {
        LogicalTableOptionView {
            name: self.name@,
            value: self.value@,
        }
    }

}

/// An aggregate that an index maintains.
#[derive(Debug, PartialEq)]
pub struct LogicalAggregatingIndexExpr {
    pub func: AggregateFunc,
    pub arg_column: Option<usize>,
    pub output_name: String,
    pub data_type: DataType,
}

/// The model of a [`LogicalAggregatingIndexExpr`].
pub struct LogicalAggregatingIndexExprView {
    pub func: AggregateFunc,
    pub arg_column: Option<usize>,
    pub output_name: Seq<char>,
    pub data_type: DataTypeView,
}

impl LogicalAggregatingIndexExpr {
    pub open spec fn view(&self) -> LogicalAggregatingIndexExprView {
        LogicalAggregatingIndexExprView {
            func: self.func,
            arg_column: self.arg_column,
            output_name: self.output_name@,
            data_type: self.data_type.view(),
        }
    }

}

/// The definition of an aggregating index.
#[derive(Debug, PartialEq)]
pub struct LogicalAggregatingIndex {
    pub group_columns: Vec<usize>,
    pub aggregates: Vec<LogicalAggregatingIndexExpr>,
}

/// The model of a [`LogicalAggregatingIndex`].
pub struct LogicalAggregatingIndexView {
    pub group_columns: Seq<usize>,
    pub aggregates: Seq<LogicalAggregatingIndexExprView>,
}

impl LogicalAggregatingIndex {
    pub open spec fn view(&self) -> LogicalAggregatingIndexView {
        LogicalAggregatingIndexView {
            group_columns: self.group_columns@,
            aggregates: index_aggregates_view(self.aggregates@),
        }
    }

}

/// The options of a role that a statement sets.
#[derive(Debug, PartialEq)]
pub struct LogicalRoleOptions {
    pub superuser: Option<bool>,
    pub inherit: Option<bool>,
    pub create_role: Option<bool>,
    pub create_db: Option<bool>,
    pub can_login: Option<bool>,
    pub replication: Option<bool>,
    pub bypass_rls: Option<bool>,
    pub connection_limit: Option<i32>,
    pub password: Option<Option<String>>,
    pub valid_until: Option<String>,
}

/// The model of a [`LogicalRoleOptions`].
pub struct LogicalRoleOptionsView {
    pub superuser: Option<bool>,
    pub inherit: Option<bool>,
    pub create_role: Option<bool>,
    pub create_db: Option<bool>,
    pub can_login: Option<bool>,
    pub replication: Option<bool>,
    pub bypass_rls: Option<bool>,
    pub connection_limit: Option<i32>,
    pub password: Option<Option<Seq<char>>>,
    pub valid_until: Option<Seq<char>>,
}

impl LogicalRoleOptions {
    pub open spec fn view(&self) -> LogicalRoleOptionsView {
        LogicalRoleOptionsView {
            superuser: self.superuser,
            inherit: self.inherit,
            create_role: self.create_role,
            create_db: self.create_db,
            can_login: self.can_login,
            replication: self.replication,
            bypass_rls: self.bypass_rls,
            connection_limit: self.connection_limit,
            password: match self.password {
                Some(x) => Some(match x { Some(x) => Some(x@), None => None }),
                None => None,
            },
            valid_until: match self.valid_until { Some(x) => Some(x@), None => None },
        }
    }

}

/// A row predicate `column = current_setting(setting)`.
#[derive(Debug, PartialEq)]
pub struct LogicalTenantPolicyExpr {
    pub column_index: usize,
    pub column_name: String,
    pub setting_name: String,
}

/// The model of a [`LogicalTenantPolicyExpr`].
pub struct LogicalTenantPolicyExprView {
    pub column_index: usize,
    pub column_name: Seq<char>,
    pub setting_name: Seq<char>,
}

impl LogicalTenantPolicyExpr {
    pub open spec fn view(&self) -> LogicalTenantPolicyExprView {
        LogicalTenantPolicyExprView {
            column_index: self.column_index,
            column_name: self.column_name@,
            setting_name: self.setting_name@,
        }
    }

}

/// A row-level security policy.
#[derive(Debug, PartialEq)]
pub struct LogicalRlsPolicy {
    pub policy_name: String,
    pub table_name: String,
    pub permissiveness: LogicalRlsPermissiveness,
    pub command: LogicalRlsCommand,
    pub roles: Vec<String>,
    pub using: Option<LogicalTenantPolicyExpr>,
    pub with_check: Option<LogicalTenantPolicyExpr>,
}

/// The model of a [`LogicalRlsPolicy`].
pub struct LogicalRlsPolicyView {
    pub policy_name: Seq<char>,
    pub table_name: Seq<char>,
    pub permissiveness: LogicalRlsPermissiveness,
    pub command: LogicalRlsCommand,
    pub roles: Seq<Seq<char>>,
    pub using: Option<LogicalTenantPolicyExprView>,
    pub with_check: Option<LogicalTenantPolicyExprView>,
}

impl LogicalRlsPolicy {
    pub open spec fn view(&self) -> LogicalRlsPolicyView {
        LogicalRlsPolicyView {
            policy_name: self.policy_name@,
            table_name: self.table_name@,
            permissiveness: self.permissiveness,
            command: self.command,
            roles: list::strings_view(self.roles@),
            using: match self.using { Some(x) => Some(x.view()), None => None },
            with_check: match self.with_check { Some(x) => Some(x.view()), None => None },
        }
    }

}

/// The columns whose conflict is handled.
#[derive(Debug, PartialEq)]
pub struct ConflictTarget {
    pub columns: Vec<usize>,
}

/// The model of a [`ConflictTarget`].
pub struct ConflictTargetView {
    pub columns: Seq<usize>,
}

impl ConflictTarget {
    pub open spec fn view(&self) -> ConflictTargetView {
        ConflictTargetView {
            columns: self.columns@,
        }
    }

}

/// A check constraint.
#[derive(Debug, PartialEq)]
pub struct LogicalCheckConstraint {
    pub name: String,
    pub expr: ScalarExpr,
}

/// The model of a [`LogicalCheckConstraint`].
pub struct LogicalCheckConstraintView {
    pub name: Seq<char>,
    pub expr: ScalarExprView,
}

impl LogicalCheckConstraint {
    pub open spec fn view(&self) -> LogicalCheckConstraintView {
        LogicalCheckConstraintView {
            name: self.name@,
            expr: self.expr.view(),
        }
    }

}

/// What a comment is attached to.
#[derive(Debug, PartialEq)]
pub enum LogicalCommentTarget {
    Table { table: String },
    Index { index: String, namespace: Option<String> },
    Column { table: String, column: String, attnum: i32 },
}

/// The model of a [`LogicalCommentTarget`].
pub enum LogicalCommentTargetView {
    Table { table: Seq<char> },
    Index { index: Seq<char>, namespace: Option<Seq<char>> },
    Column { table: Seq<char>, column: Seq<char>, attnum: i32 },
}

impl LogicalCommentTarget {
    pub open spec fn view(&self) -> LogicalCommentTargetView {
        match self {
            LogicalCommentTarget::Table { table } => LogicalCommentTargetView::Table {
                table: table@,
            },
            LogicalCommentTarget::Index { index, namespace } => LogicalCommentTargetView::Index {
                index: index@,
                namespace: match namespace { Some(x) => Some(x@), None => None },
            },
            LogicalCommentTarget::Column { table, column, attnum } =>
                LogicalCommentTargetView::Column {
                table: table@,
                column: column@,
                attnum: *attnum,
            },
        }
    }

}

/// A change to a view.
#[derive(Debug, PartialEq)]
pub enum LogicalAlterViewAction {
    RenameView { new_name: String },
    SetSchema { new_schema: String },
}

/// The model of a [`LogicalAlterViewAction`].
pub enum LogicalAlterViewActionView {
    RenameView { new_name: Seq<char> },
    SetSchema { new_schema: Seq<char> },
}

impl LogicalAlterViewAction {
    pub open spec fn view(&self) -> LogicalAlterViewActionView {
        match self {
            LogicalAlterViewAction::RenameView { new_name } =>
                LogicalAlterViewActionView::RenameView {
                new_name: new_name@,
            },
            LogicalAlterViewAction::SetSchema { new_schema } =>
                LogicalAlterViewActionView::SetSchema {
                new_schema: new_schema@,
            },
        }
    }

}

/// Where `COPY` reads or writes.
#[derive(Debug, PartialEq)]
pub enum LogicalCopySource {
    Stdin,
    Stdout,
    File(String),
}

/// The model of a [`LogicalCopySource`].
pub enum LogicalCopySourceView {
    Stdin,
    Stdout,
    File(Seq<char>),
}

impl LogicalCopySource {
    pub open spec fn view(&self) -> LogicalCopySourceView {
        match self {
            LogicalCopySource::Stdin => LogicalCopySourceView::Stdin,
            LogicalCopySource::Stdout => LogicalCopySourceView::Stdout,
            LogicalCopySource::File(x0) => LogicalCopySourceView::File(x0@),
        }
    }

}

/// What an insert does with a conflicting row.
#[derive(Debug, PartialEq)]
pub enum LogicalOnConflict {
    DoNothing { target: Option<ConflictTarget> },
    DoUpdate {
        target: ConflictTarget,
        assignments: Vec<(usize, ScalarExpr)>,
        where_clause: Option<ScalarExpr>,
    },
}

/// The model of a [`LogicalOnConflict`].
pub enum LogicalOnConflictView {
    DoNothing { target: Option<ConflictTargetView> },
    DoUpdate {
        target: ConflictTargetView,
        assignments: Seq<(usize, ScalarExprView)>,
        where_clause: Option<ScalarExprView>,
    },
}

impl LogicalOnConflict {
    pub open spec fn view(&self) -> LogicalOnConflictView {
        match self {
            LogicalOnConflict::DoNothing { target } => LogicalOnConflictView::DoNothing {
                target: match target { Some(x) => Some(x.view()), None => None },
            },
            LogicalOnConflict::DoUpdate { target, assignments, where_clause } =>
                LogicalOnConflictView::DoUpdate {
                target: target.view(),
                assignments: assignments_view(assignments@),
                where_clause: match where_clause { Some(x) => Some(x.view()), None => None },
            },
        }
    }

}

/// What a `MERGE` branch does.
#[derive(Debug, PartialEq)]
pub enum LogicalMergeAction {
    Update { assignments: Vec<(usize, ScalarExpr)> },
    Delete,
    Insert { columns: Vec<usize>, values: Vec<ScalarExpr> },
}

/// The model of a [`LogicalMergeAction`].
pub enum LogicalMergeActionView {
    Update { assignments: Seq<(usize, ScalarExprView)> },
    Delete,
    Insert { columns: Seq<usize>, values: Seq<ScalarExprView> },
}

impl LogicalMergeAction {
    pub open spec fn view(&self) -> LogicalMergeActionView {
        match self {
            LogicalMergeAction::Update { assignments } => LogicalMergeActionView::Update {
                assignments: assignments_view(assignments@),
            },
            LogicalMergeAction::Delete => LogicalMergeActionView::Delete,
            LogicalMergeAction::Insert { columns, values } => LogicalMergeActionView::Insert {
                columns: columns@,
                values: query::scalars_view(values@),
            },
        }
    }

}

/// A `MERGE` branch.
#[derive(Debug, PartialEq)]
pub struct LogicalMergeClause {
    pub kind: LogicalMergeMatchKind,
    pub condition: Option<ScalarExpr>,
    pub action: LogicalMergeAction,
}

/// The model of a [`LogicalMergeClause`].
pub struct LogicalMergeClauseView {
    pub kind: LogicalMergeMatchKind,
    pub condition: Option<ScalarExprView>,
    pub action: LogicalMergeActionView,
}

impl LogicalMergeClause {
    pub open spec fn view(&self) -> LogicalMergeClauseView {
        LogicalMergeClauseView {
            kind: self.kind,
            condition: match self.condition { Some(x) => Some(x.view()), None => None },
            action: self.action.view(),
        }
    }

}

/// A change to a table.
#[derive(Debug, PartialEq)]
pub enum LogicalAlterTableAction {
    AddColumn { column: Field, default: Option<ScalarExpr> },
    DropColumn { column_index: usize, column_name: String },
    RenameColumn { column_index: usize, old_name: String, new_name: String },
    RenameTable { new_name: String },
    EnableRowLevelSecurity,
    SetOptions { options: Vec<LogicalTableOption> },
    AddUniqueConstraint { constraint: LogicalUniqueConstraint },
    AddCheckConstraint { constraint: LogicalCheckConstraint },
    DropConstraint { name: String, if_exists: bool, cascade: bool },
    AlterColumnSetNotNull { column_index: usize, column_name: String },
    AlterColumnDropNotNull { column_index: usize, column_name: String },
    AlterColumnSetDefault { column_index: usize, column_name: String, default: ScalarExpr },
    AlterColumnDropDefault { column_index: usize, column_name: String },
}

/// The model of a [`LogicalAlterTableAction`].
pub enum LogicalAlterTableActionView {
    AddColumn { column: FieldView, default: Option<ScalarExprView> },
    DropColumn { column_index: usize, column_name: Seq<char> },
    RenameColumn { column_index: usize, old_name: Seq<char>, new_name: Seq<char> },
    RenameTable { new_name: Seq<char> },
    EnableRowLevelSecurity,
    SetOptions { options: Seq<LogicalTableOptionView> },
    AddUniqueConstraint { constraint: LogicalUniqueConstraintView },
    AddCheckConstraint { constraint: LogicalCheckConstraintView },
    DropConstraint { name: Seq<char>, if_exists: bool, cascade: bool },
    AlterColumnSetNotNull { column_index: usize, column_name: Seq<char> },
    AlterColumnDropNotNull { column_index: usize, column_name: Seq<char> },
    AlterColumnSetDefault { column_index: usize, column_name: Seq<char>, default: ScalarExprView },
    AlterColumnDropDefault { column_index: usize, column_name: Seq<char> },
}

impl LogicalAlterTableAction {
    pub open spec fn view(&self) -> LogicalAlterTableActionView {
        match self {
            LogicalAlterTableAction::AddColumn { column, default } =>
                LogicalAlterTableActionView::AddColumn {
                column: column.view(),
                default: match default { Some(x) => Some(x.view()), None => None },
            },
            LogicalAlterTableAction::DropColumn { column_index, column_name } =>
                LogicalAlterTableActionView::DropColumn {
                column_index: *column_index,
                column_name: column_name@,
            },
            LogicalAlterTableAction::RenameColumn { column_index, old_name, new_name } =>
                LogicalAlterTableActionView::RenameColumn {
                column_index: *column_index,
                old_name: old_name@,
                new_name: new_name@,
            },
            LogicalAlterTableAction::RenameTable { new_name } =>
                LogicalAlterTableActionView::RenameTable {
                new_name: new_name@,
            },
            LogicalAlterTableAction::EnableRowLevelSecurity =>
                LogicalAlterTableActionView::EnableRowLevelSecurity,
            LogicalAlterTableAction::SetOptions { options } =>
                LogicalAlterTableActionView::SetOptions {
                options: table_options_view(options@),
            },
            LogicalAlterTableAction::AddUniqueConstraint { constraint } =>
                LogicalAlterTableActionView::AddUniqueConstraint {
                constraint: constraint.view(),
            },
            LogicalAlterTableAction::AddCheckConstraint { constraint } =>
                LogicalAlterTableActionView::AddCheckConstraint {
                constraint: constraint.view(),
            },
            LogicalAlterTableAction::DropConstraint { name, if_exists, cascade } =>
                LogicalAlterTableActionView::DropConstraint {
                name: name@,
                if_exists: *if_exists,
                cascade: *cascade,
            },
            LogicalAlterTableAction::AlterColumnSetNotNull { column_index, column_name } =>
                LogicalAlterTableActionView::AlterColumnSetNotNull {
                column_index: *column_index,
                column_name: column_name@,
            },
            LogicalAlterTableAction::AlterColumnDropNotNull { column_index, column_name } =>
                LogicalAlterTableActionView::AlterColumnDropNotNull {
                column_index: *column_index,
                column_name: column_name@,
            },
            LogicalAlterTableAction::AlterColumnSetDefault { column_index, column_name, default } =>
                LogicalAlterTableActionView::AlterColumnSetDefault {
                column_index: *column_index,
                column_name: column_name@,
                default: default.view(),
            },
            LogicalAlterTableAction::AlterColumnDropDefault { column_index, column_name } =>
                LogicalAlterTableActionView::AlterColumnDropDefault {
                column_index: *column_index,
                column_name: column_name@,
            },
        }
    }

}

/// The table that a `CREATE TABLE` makes.
#[derive(Debug, PartialEq)]
pub struct CreateTablePlan {
    pub table_name: String,
    pub namespace: String,
    pub columns: Schema,
    pub column_collations: Vec<Option<u32>>,
    pub defaults: Vec<Option<ScalarExpr>>,
    pub sequence_defaults: Vec<Option<String>>,
    pub sequence_options: Vec<Option<LogicalSequenceOptions>>,
    pub identity_always: Vec<bool>,
    pub generated_stored: Vec<Option<ScalarExpr>>,
    pub checks: Vec<LogicalCheckConstraint>,
    pub unique_constraints: Vec<LogicalUniqueConstraint>,
    pub foreign_keys: Vec<LogicalForeignKeyConstraint>,
    pub exclusion_constraints: Vec<LogicalExclusionConstraint>,
    pub partition: Option<LogicalTimePartition>,
    pub if_not_exists: bool,
    pub schema: Schema,
}

/// The model of a [`CreateTablePlan`].
pub struct CreateTablePlanView {
    pub table_name: Seq<char>,
    pub namespace: Seq<char>,
    pub columns: SchemaView,
    pub column_collations: Seq<Option<u32>>,
    pub defaults: Seq<Option<ScalarExprView>>,
    pub sequence_defaults: Seq<Option<Seq<char>>>,
    pub sequence_options: Seq<Option<LogicalSequenceOptions>>,
    pub identity_always: Seq<bool>,
    pub generated_stored: Seq<Option<ScalarExprView>>,
    pub checks: Seq<LogicalCheckConstraintView>,
    pub unique_constraints: Seq<LogicalUniqueConstraintView>,
    pub foreign_keys: Seq<LogicalForeignKeyConstraintView>,
    pub exclusion_constraints: Seq<LogicalExclusionConstraintView>,
    pub partition: Option<LogicalTimePartitionView>,
    pub if_not_exists: bool,
    pub schema: SchemaView,
}

impl CreateTablePlan {
    pub open spec fn view(&self) -> CreateTablePlanView {
        CreateTablePlanView {
            table_name: self.table_name@,
            namespace: self.namespace@,
            columns: self.columns.view(),
            column_collations: self.column_collations@,
            defaults: optional_scalars_view(self.defaults@),
            sequence_defaults: list::optional_strings_view(self.sequence_defaults@),
            sequence_options: self.sequence_options@,
            identity_always: self.identity_always@,
            generated_stored: optional_scalars_view(self.generated_stored@),
            checks: checks_view(self.checks@),
            unique_constraints: uniques_view(self.unique_constraints@),
            foreign_keys: foreign_keys_view(self.foreign_keys@),
            exclusion_constraints: exclusions_view(self.exclusion_constraints@),
            partition: match self.partition { Some(x) => Some(x.view()), None => None },
            if_not_exists: self.if_not_exists,
            schema: self.schema.view(),
        }
    }

}

/// The index that a `CREATE INDEX` makes.
#[derive(Debug, PartialEq)]
pub struct CreateIndexPlan {
    pub index_name: String,
    pub index_namespace: String,
    pub table_name: String,
    pub columns: Vec<usize>,
    pub key_exprs: Vec<ScalarExpr>,
    pub opclasses: Vec<Option<String>>,
    pub index_options: Vec<LogicalIndexOption>,
    pub covering_columns: Vec<usize>,
    pub predicate: Option<ScalarExpr>,
    pub method: LogicalIndexMethod,
    pub aggregating: Option<LogicalAggregatingIndex>,
    pub unique: bool,
    pub primary_key: bool,
    pub concurrently: bool,
    pub if_not_exists: bool,
    pub schema: Schema,
}

/// The model of a [`CreateIndexPlan`].
pub struct CreateIndexPlanView {
    pub index_name: Seq<char>,
    pub index_namespace: Seq<char>,
    pub table_name: Seq<char>,
    pub columns: Seq<usize>,
    pub key_exprs: Seq<ScalarExprView>,
    pub opclasses: Seq<Option<Seq<char>>>,
    pub index_options: Seq<LogicalIndexOptionView>,
    pub covering_columns: Seq<usize>,
    pub predicate: Option<ScalarExprView>,
    pub method: LogicalIndexMethod,
    pub aggregating: Option<LogicalAggregatingIndexView>,
    pub unique: bool,
    pub primary_key: bool,
    pub concurrently: bool,
    pub if_not_exists: bool,
    pub schema: SchemaView,
}

impl CreateIndexPlan {
    pub open spec fn view(&self) -> CreateIndexPlanView {
        CreateIndexPlanView {
            index_name: self.index_name@,
            index_namespace: self.index_namespace@,
            table_name: self.table_name@,
            columns: self.columns@,
            key_exprs: query::scalars_view(self.key_exprs@),
            opclasses: list::optional_strings_view(self.opclasses@),
            index_options: index_options_view(self.index_options@),
            covering_columns: self.covering_columns@,
            predicate: match self.predicate { Some(x) => Some(x.view()), None => None },
            method: self.method,
            aggregating: match self.aggregating { Some(x) => Some(x.view()), None => None },
            unique: self.unique,
            primary_key: self.primary_key,
            concurrently: self.concurrently,
            if_not_exists: self.if_not_exists,
            schema: self.schema.view(),
        }
    }

}

/// The transfer that a `COPY` makes.
#[derive(Debug, PartialEq)]
pub struct CopyPlan {
    pub relation: Option<String>,
    pub input: Option<QueryPlan>,
    pub columns: Vec<usize>,
    pub direction: CopyDirection,
    pub source: LogicalCopySource,
    pub format: CopyFormat,
    pub delimiter: char,
    pub null_str: String,
    pub header: bool,
    pub auto_detect: bool,
    pub ignore_errors: bool,
    pub max_errors: u64,
    pub reject_table: Option<String>,
    pub schema: Schema,
}

/// The model of a [`CopyPlan`].
pub struct CopyPlanView {
    pub relation: Option<Seq<char>>,
    pub input: Option<QueryPlanView>,
    pub columns: Seq<usize>,
    pub direction: CopyDirection,
    pub source: LogicalCopySourceView,
    pub format: CopyFormat,
    pub delimiter: char,
    pub null_str: Seq<char>,
    pub header: bool,
    pub auto_detect: bool,
    pub ignore_errors: bool,
    pub max_errors: u64,
    pub reject_table: Option<Seq<char>>,
    pub schema: SchemaView,
}

impl CopyPlan {
    pub open spec fn view(&self) -> CopyPlanView {
        CopyPlanView {
            relation: match self.relation { Some(x) => Some(x@), None => None },
            input: match self.input { Some(x) => Some(x.view()), None => None },
            columns: self.columns@,
            direction: self.direction,
            source: self.source.view(),
            format: self.format,
            delimiter: self.delimiter,
            null_str: self.null_str@,
            header: self.header,
            auto_detect: self.auto_detect,
            ignore_errors: self.ignore_errors,
            max_errors: self.max_errors,
            reject_table: match self.reject_table { Some(x) => Some(x@), None => None },
            schema: self.schema.view(),
        }
    }

}

/// A logical plan.
#[derive(Debug, PartialEq)]
pub enum LogicalPlan {
    Query(QueryPlan),
    Insert {
        table: String,
        columns: Vec<usize>,
        source: QueryPlan,
        on_conflict: Option<LogicalOnConflict>,
        returning: Vec<(ScalarExpr, String)>,
        schema: Schema,
    },
    Update {
        table: String,
        assignments: Vec<(usize, ScalarExpr)>,
        input: QueryPlan,
        returning: Vec<(ScalarExpr, String)>,
        schema: Schema,
    },
    Delete {
        table: String,
        input: QueryPlan,
        returning: Vec<(ScalarExpr, String)>,
        schema: Schema,
    },
    Merge {
        target: String,
        target_alias: Option<String>,
        target_schema: Schema,
        source: QueryPlan,
        on: ScalarExpr,
        clauses: Vec<LogicalMergeClause>,
        schema: Schema,
    },
    Truncate { tables: Vec<String>, restart_identity: bool, cascade: bool, schema: Schema },
    CreateTable(CreateTablePlan),
    CreateIndex(CreateIndexPlan),
    DropTable { tables: Vec<String>, if_exists: bool, cascade: bool, schema: Schema },
    DropIndex {
        indexes: Vec<String>,
        index_namespaces: Vec<Option<String>>,
        if_exists: bool,
        cascade: bool,
        schema: Schema,
    },
    AlterTable { table_name: String, change: LogicalAlterTableAction, schema: Schema },
    CreateSequence {
        sequence_name: String,
        namespace: String,
        options: LogicalSequenceOptions,
        if_not_exists: bool,
        schema: Schema,
    },
    AlterSequence {
        sequence_name: String,
        explicit_namespace: Option<String>,
        changes: LogicalSequenceChange,
        schema: Schema,
    },
    DropSequence {
        sequences: Vec<String>,
        sequence_namespaces: Vec<Option<String>>,
        if_exists: bool,
        cascade: bool,
        schema: Schema,
    },
    CreateSchema { schema_name: String, if_not_exists: bool, schema: Schema },
    DropSchema { schemas: Vec<String>, if_exists: bool, cascade: bool, schema: Schema },
    CreateRole {
        kind: LogicalRoleKind,
        role_name: String,
        role_options: LogicalRoleOptions,
        if_not_exists: bool,
        schema: Schema,
    },
    AlterRole {
        kind: LogicalRoleKind,
        role_name: String,
        role_options: LogicalRoleOptions,
        schema: Schema,
    },
    DropRole {
        kind: LogicalRoleKind,
        roles: Vec<String>,
        if_exists: bool,
        cascade: bool,
        schema: Schema,
    },
    Comment { subject: LogicalCommentTarget, comment: Option<String>, schema: Schema },
    CreateTypeEnum { name: String, namespace: String, labels: Vec<String>, schema: Schema },
    CreateTypeComposite { name: String, namespace: String, attributes: Schema, schema: Schema },
    CreateDomain {
        domain_name: String,
        namespace: String,
        base_type: DataType,
        not_null: bool,
        checks: Vec<LogicalCheckConstraint>,
        schema: Schema,
    },
    CreateOperator {
        operator_name: String,
        namespace: String,
        left_type: Option<DataType>,
        right_type: Option<DataType>,
        procedure: String,
        result_type: DataType,
        schema: Schema,
    },
    CreatePolicy { policy: LogicalRlsPolicy, schema: Schema },
    CreateView {
        table_name: String,
        namespace: String,
        output: Schema,
        source: QueryPlan,
        source_sql: String,
        or_replace: bool,
        schema: Schema,
    },
    CreateMaterializedView {
        table_name: String,
        namespace: String,
        output: Schema,
        source: QueryPlan,
        if_not_exists: bool,
        schema: Schema,
    },
    AlterView { view_name: String, action: LogicalAlterViewAction, schema: Schema },
    Copy(CopyPlan),
    Begin { schema: Schema },
    Commit { schema: Schema },
    Rollback { schema: Schema },
    Savepoint { name: String, schema: Schema },
    RollbackToSavepoint { name: String, schema: Schema },
    ReleaseSavepoint { name: String, schema: Schema },
    PrepareTransaction { gid: String, schema: Schema },
    CommitPrepared { gid: String, schema: Schema },
    RollbackPrepared { gid: String, schema: Schema },
}

/// The model of a [`LogicalPlan`].
pub enum LogicalPlanView {
    Query(QueryPlanView),
    Insert {
        table: Seq<char>,
        columns: Seq<usize>,
        source: QueryPlanView,
        on_conflict: Option<LogicalOnConflictView>,
        returning: Seq<(ScalarExprView, Seq<char>)>,
        schema: SchemaView,
    },
    Update {
        table: Seq<char>,
        assignments: Seq<(usize, ScalarExprView)>,
        input: QueryPlanView,
        returning: Seq<(ScalarExprView, Seq<char>)>,
        schema: SchemaView,
    },
    Delete {
        table: Seq<char>,
        input: QueryPlanView,
        returning: Seq<(ScalarExprView, Seq<char>)>,
        schema: SchemaView,
    },
    Merge {
        target: Seq<char>,
        target_alias: Option<Seq<char>>,
        target_schema: SchemaView,
        source: QueryPlanView,
        on: ScalarExprView,
        clauses: Seq<LogicalMergeClauseView>,
        schema: SchemaView,
    },
    Truncate { tables: Seq<Seq<char>>, restart_identity: bool, cascade: bool, schema: SchemaView },
    CreateTable(CreateTablePlanView),
    CreateIndex(CreateIndexPlanView),
    DropTable { tables: Seq<Seq<char>>, if_exists: bool, cascade: bool, schema: SchemaView },
    DropIndex {
        indexes: Seq<Seq<char>>,
        index_namespaces: Seq<Option<Seq<char>>>,
        if_exists: bool,
        cascade: bool,
        schema: SchemaView,
    },
    AlterTable { table_name: Seq<char>, change: LogicalAlterTableActionView, schema: SchemaView },
    CreateSequence {
        sequence_name: Seq<char>,
        namespace: Seq<char>,
        options: LogicalSequenceOptions,
        if_not_exists: bool,
        schema: SchemaView,
    },
    AlterSequence {
        sequence_name: Seq<char>,
        explicit_namespace: Option<Seq<char>>,
        changes: LogicalSequenceChange,
        schema: SchemaView,
    },
    DropSequence {
        sequences: Seq<Seq<char>>,
        sequence_namespaces: Seq<Option<Seq<char>>>,
        if_exists: bool,
        cascade: bool,
        schema: SchemaView,
    },
    CreateSchema { schema_name: Seq<char>, if_not_exists: bool, schema: SchemaView },
    DropSchema { schemas: Seq<Seq<char>>, if_exists: bool, cascade: bool, schema: SchemaView },
    CreateRole {
        kind: LogicalRoleKind,
        role_name: Seq<char>,
        role_options: LogicalRoleOptionsView,
        if_not_exists: bool,
        schema: SchemaView,
    },
    AlterRole {
        kind: LogicalRoleKind,
        role_name: Seq<char>,
        role_options: LogicalRoleOptionsView,
        schema: SchemaView,
    },
    DropRole {
        kind: LogicalRoleKind,
        roles: Seq<Seq<char>>,
        if_exists: bool,
        cascade: bool,
        schema: SchemaView,
    },
    Comment { subject: LogicalCommentTargetView, comment: Option<Seq<char>>, schema: SchemaView },
    CreateTypeEnum {
        name: Seq<char>,
        namespace: Seq<char>,
        labels: Seq<Seq<char>>,
        schema: SchemaView,
    },
    CreateTypeComposite {
        name: Seq<char>,
        namespace: Seq<char>,
        attributes: SchemaView,
        schema: SchemaView,
    },
    CreateDomain {
        domain_name: Seq<char>,
        namespace: Seq<char>,
        base_type: DataTypeView,
        not_null: bool,
        checks: Seq<LogicalCheckConstraintView>,
        schema: SchemaView,
    },
    CreateOperator {
        operator_name: Seq<char>,
        namespace: Seq<char>,
        left_type: Option<DataTypeView>,
        right_type: Option<DataTypeView>,
        procedure: Seq<char>,
        result_type: DataTypeView,
        schema: SchemaView,
    },
    CreatePolicy { policy: LogicalRlsPolicyView, schema: SchemaView },
    CreateView {
        table_name: Seq<char>,
        namespace: Seq<char>,
        output: SchemaView,
        source: QueryPlanView,
        source_sql: Seq<char>,
        or_replace: bool,
        schema: SchemaView,
    },
    CreateMaterializedView {
        table_name: Seq<char>,
        namespace: Seq<char>,
        output: SchemaView,
        source: QueryPlanView,
        if_not_exists: bool,
        schema: SchemaView,
    },
    AlterView { view_name: Seq<char>, action: LogicalAlterViewActionView, schema: SchemaView },
    Copy(CopyPlanView),
    Begin { schema: SchemaView },
    Commit { schema: SchemaView },
    Rollback { schema: SchemaView },
    Savepoint { name: Seq<char>, schema: SchemaView },
    RollbackToSavepoint { name: Seq<char>, schema: SchemaView },
    ReleaseSavepoint { name: Seq<char>, schema: SchemaView },
    PrepareTransaction { gid: Seq<char>, schema: SchemaView },
    CommitPrepared { gid: Seq<char>, schema: SchemaView },
    RollbackPrepared { gid: Seq<char>, schema: SchemaView },
}

impl LogicalPlan {
    pub open spec fn view(&self) -> LogicalPlanView {
        match self {
            LogicalPlan::Query(x0) => LogicalPlanView::Query(x0.view()),
            LogicalPlan::Insert { table, columns, source, on_conflict, returning, schema } =>
                LogicalPlanView::Insert {
                table: table@,
                columns: columns@,
                source: source.view(),
                on_conflict: match on_conflict { Some(x) => Some(x.view()), None => None },
                returning: query::outputs_view(returning@),
                schema: schema.view(),
            },
            LogicalPlan::Update { table, assignments, input, returning, schema } =>
                LogicalPlanView::Update {
                table: table@,
                assignments: assignments_view(assignments@),
                input: input.view(),
                returning: query::outputs_view(returning@),
                schema: schema.view(),
            },
            LogicalPlan::Delete { table, input, returning, schema } => LogicalPlanView::Delete {
                table: table@,
                input: input.view(),
                returning: query::outputs_view(returning@),
                schema: schema.view(),
            },
            LogicalPlan::Merge {
                target,
                target_alias,
                target_schema,
                source,
                on,
                clauses,
                schema,
            } =>
                LogicalPlanView::Merge {
                target: target@,
                target_alias: match target_alias { Some(x) => Some(x@), None => None },
                target_schema: target_schema.view(),
                source: source.view(),
                on: on.view(),
                clauses: merge_clauses_view(clauses@),
                schema: schema.view(),
            },
            LogicalPlan::Truncate { tables, restart_identity, cascade, schema } =>
                LogicalPlanView::Truncate {
                tables: list::strings_view(tables@),
                restart_identity: *restart_identity,
                cascade: *cascade,
                schema: schema.view(),
            },
            LogicalPlan::CreateTable(x0) => LogicalPlanView::CreateTable(x0.view()),
            LogicalPlan::CreateIndex(x0) => LogicalPlanView::CreateIndex(x0.view()),
            LogicalPlan::DropTable { tables, if_exists, cascade, schema } =>
                LogicalPlanView::DropTable {
                tables: list::strings_view(tables@),
                if_exists: *if_exists,
                cascade: *cascade,
                schema: schema.view(),
            },
            LogicalPlan::DropIndex { indexes, index_namespaces, if_exists, cascade, schema } =>
                LogicalPlanView::DropIndex {
                indexes: list::strings_view(indexes@),
                index_namespaces: list::optional_strings_view(index_namespaces@),
                if_exists: *if_exists,
                cascade: *cascade,
                schema: schema.view(),
            },
            LogicalPlan::AlterTable { table_name, change, schema } => LogicalPlanView::AlterTable {
                table_name: table_name@,
                change: change.view(),
                schema: schema.view(),
            },
            LogicalPlan::CreateSequence {
                sequence_name,
                namespace,
                options,
                if_not_exists,
                schema,
            } => LogicalPlanView::CreateSequence {
                sequence_name: sequence_name@,
                namespace: namespace@,
                options: *options,
                if_not_exists: *if_not_exists,
                schema: schema.view(),
            },
            LogicalPlan::AlterSequence { sequence_name, explicit_namespace, changes, schema } =>
                LogicalPlanView::AlterSequence {
                sequence_name: sequence_name@,
                explicit_namespace: match explicit_namespace { Some(x) => Some(x@), None => None },
                changes: *changes,
                schema: schema.view(),
            },
            LogicalPlan::DropSequence {
                sequences,
                sequence_namespaces,
                if_exists,
                cascade,
                schema,
            } => LogicalPlanView::DropSequence {
                sequences: list::strings_view(sequences@),
                sequence_namespaces: list::optional_strings_view(sequence_namespaces@),
                if_exists: *if_exists,
                cascade: *cascade,
                schema: schema.view(),
            },
            LogicalPlan::CreateSchema { schema_name, if_not_exists, schema } =>
                LogicalPlanView::CreateSchema {
                schema_name: schema_name@,
                if_not_exists: *if_not_exists,
                schema: schema.view(),
            },
            LogicalPlan::DropSchema { schemas, if_exists, cascade, schema } =>
                LogicalPlanView::DropSchema {
                schemas: list::strings_view(schemas@),
                if_exists: *if_exists,
                cascade: *cascade,
                schema: schema.view(),
            },
            LogicalPlan::CreateRole { kind, role_name, role_options, if_not_exists, schema } =>
                LogicalPlanView::CreateRole {
                kind: *kind,
                role_name: role_name@,
                role_options: role_options.view(),
                if_not_exists: *if_not_exists,
                schema: schema.view(),
            },
            LogicalPlan::AlterRole { kind, role_name, role_options, schema } =>
                LogicalPlanView::AlterRole {
                kind: *kind,
                role_name: role_name@,
                role_options: role_options.view(),
                schema: schema.view(),
            },
            LogicalPlan::DropRole { kind, roles, if_exists, cascade, schema } =>
                LogicalPlanView::DropRole {
                kind: *kind,
                roles: list::strings_view(roles@),
                if_exists: *if_exists,
                cascade: *cascade,
                schema: schema.view(),
            },
            LogicalPlan::Comment { subject, comment, schema } => LogicalPlanView::Comment {
                subject: subject.view(),
                comment: match comment { Some(x) => Some(x@), None => None },
                schema: schema.view(),
            },
            LogicalPlan::CreateTypeEnum { name, namespace, labels, schema } =>
                LogicalPlanView::CreateTypeEnum {
                name: name@,
                namespace: namespace@,
                labels: list::strings_view(labels@),
                schema: schema.view(),
            },
            LogicalPlan::CreateTypeComposite { name, namespace, attributes, schema } =>
                LogicalPlanView::CreateTypeComposite {
                name: name@,
                namespace: namespace@,
                attributes: attributes.view(),
                schema: schema.view(),
            },
            LogicalPlan::CreateDomain {
                domain_name,
                namespace,
                base_type,
                not_null,
                checks,
                schema,
            } => LogicalPlanView::CreateDomain {
                domain_name: domain_name@,
                namespace: namespace@,
                base_type: base_type.view(),
                not_null: *not_null,
                checks: checks_view(checks@),
                schema: schema.view(),
            },
            LogicalPlan::CreateOperator {
                operator_name,
                namespace,
                left_type,
                right_type,
                procedure,
                result_type,
                schema,
            } => LogicalPlanView::CreateOperator {
                operator_name: operator_name@,
                namespace: namespace@,
                left_type: match left_type { Some(x) => Some(x.view()), None => None },
                right_type: match right_type { Some(x) => Some(x.view()), None => None },
                procedure: procedure@,
                result_type: result_type.view(),
                schema: schema.view(),
            },
            LogicalPlan::CreatePolicy { policy, schema } => LogicalPlanView::CreatePolicy {
                policy: policy.view(),
                schema: schema.view(),
            },
            LogicalPlan::CreateView {
                table_name,
                namespace,
                output,
                source,
                source_sql,
                or_replace,
                schema,
            } => LogicalPlanView::CreateView {
                table_name: table_name@,
                namespace: namespace@,
                output: output.view(),
                source: source.view(),
                source_sql: source_sql@,
                or_replace: *or_replace,
                schema: schema.view(),
            },
            LogicalPlan::CreateMaterializedView {
                table_name,
                namespace,
                output,
                source,
                if_not_exists,
                schema,
            } => LogicalPlanView::CreateMaterializedView {
                table_name: table_name@,
                namespace: namespace@,
                output: output.view(),
                source: source.view(),
                if_not_exists: *if_not_exists,
                schema: schema.view(),
            },
            LogicalPlan::AlterView { view_name, action, schema } => LogicalPlanView::AlterView {
                view_name: view_name@,
                action: action.view(),
                schema: schema.view(),
            },
            LogicalPlan::Copy(x0) => LogicalPlanView::Copy(x0.view()),
            LogicalPlan::Begin { schema } => LogicalPlanView::Begin { schema: schema.view() },
            LogicalPlan::Commit { schema } => LogicalPlanView::Commit { schema: schema.view() },
            LogicalPlan::Rollback { schema } => LogicalPlanView::Rollback { schema: schema.view() },
            LogicalPlan::Savepoint { name, schema } => LogicalPlanView::Savepoint {
                name: name@,
                schema: schema.view(),
            },
            LogicalPlan::RollbackToSavepoint { name, schema } =>
                LogicalPlanView::RollbackToSavepoint {
                name: name@,
                schema: schema.view(),
            },
            LogicalPlan::ReleaseSavepoint { name, schema } => LogicalPlanView::ReleaseSavepoint {
                name: name@,
                schema: schema.view(),
            },
            LogicalPlan::PrepareTransaction { gid, schema } => LogicalPlanView::PrepareTransaction {
                gid: gid@,
                schema: schema.view(),
            },
            LogicalPlan::CommitPrepared { gid, schema } => LogicalPlanView::CommitPrepared {
                gid: gid@,
                schema: schema.view(),
            },
            LogicalPlan::RollbackPrepared { gid, schema } => LogicalPlanView::RollbackPrepared {
                gid: gid@,
                schema: schema.view(),
            },
        }
    }

}

/// The models of column assignments.
pub open spec fn assignments_view(s: Seq<(usize, ScalarExpr)>) -> Seq<(usize, ScalarExprView)> {
    Seq::new(s.len(), |i: int| (s[i].0, s[i].1.view()))
}

/// Appending an element appends its model.
pub broadcast proof fn lemma_assignments_push(s: Seq<(usize, ScalarExpr)>, e: (usize, ScalarExpr))
    ensures
        #[trigger] assignments_view(s.push(e)) == assignments_view(s).push((e.0, e.1.view())),
{
    assert(assignments_view(s.push(e)) =~= assignments_view(s).push((e.0, e.1.view())));
}

/// The models of optional expressions.
pub open spec fn optional_scalars_view(s: Seq<Option<ScalarExpr>>) -> Seq<Option<ScalarExprView>> {
    Seq::new(s.len(), |i: int| match s[i] { Some(x) => Some(x.view()), None => None })
}

/// Appending an element appends its model.
pub broadcast proof fn lemma_optional_scalars_push(
    s: Seq<Option<ScalarExpr>>,
    e: Option<ScalarExpr>,
)
    ensures
        #[trigger] optional_scalars_view(s.push(e)) == optional_scalars_view(s).push(
            match e {
                Some(x) => Some(x.view()),
                None => None,
            },
        ),
{
    assert(optional_scalars_view(s.push(e)) =~= optional_scalars_view(s).push(
        match e {
            Some(x) => Some(x.view()),
            None => None,
        },
    ));
}

/// The models of unique constraints.
pub open spec fn uniques_view(s: Seq<LogicalUniqueConstraint>) -> Seq<LogicalUniqueConstraintView> {
    Seq::new(s.len(), |i: int| s[i].view())
}

/// Appending an element appends its model.
pub broadcast proof fn lemma_uniques_push(
    s: Seq<LogicalUniqueConstraint>,
    e: LogicalUniqueConstraint,
)
    ensures
        #[trigger] uniques_view(s.push(e)) == uniques_view(s).push(e.view()),
{
    assert(uniques_view(s.push(e)) =~= uniques_view(s).push(e.view()));
}

/// The models of foreign keys.
pub open spec fn foreign_keys_view(s: Seq<LogicalForeignKeyConstraint>) -> Seq<
    LogicalForeignKeyConstraintView,
> {
    Seq::new(s.len(), |i: int| s[i].view())
}

/// Appending an element appends its model.
pub broadcast proof fn lemma_foreign_keys_push(
    s: Seq<LogicalForeignKeyConstraint>,
    e: LogicalForeignKeyConstraint,
)
    ensures
        #[trigger] foreign_keys_view(s.push(e)) == foreign_keys_view(s).push(e.view()),
{
    assert(foreign_keys_view(s.push(e)) =~= foreign_keys_view(s).push(e.view()));
}

/// The models of exclusion constraints.
pub open spec fn exclusions_view(s: Seq<LogicalExclusionConstraint>) -> Seq<
    LogicalExclusionConstraintView,
> {
    Seq::new(s.len(), |i: int| s[i].view())
}

/// Appending an element appends its model.
pub broadcast proof fn lemma_exclusions_push(
    s: Seq<LogicalExclusionConstraint>,
    e: LogicalExclusionConstraint,
)
    ensures
        #[trigger] exclusions_view(s.push(e)) == exclusions_view(s).push(e.view()),
{
    assert(exclusions_view(s.push(e)) =~= exclusions_view(s).push(e.view()));
}

/// The models of index options.
pub open spec fn index_options_view(s: Seq<LogicalIndexOption>) -> Seq<LogicalIndexOptionView> {
    Seq::new(s.len(), |i: int| s[i].view())
}

/// Appending an element appends its model.
pub broadcast proof fn lemma_index_options_push(s: Seq<LogicalIndexOption>, e: LogicalIndexOption)
    ensures
        #[trigger] index_options_view(s.push(e)) == index_options_view(s).push(e.view()),
{
    assert(index_options_view(s.push(e)) =~= index_options_view(s).push(e.view()));
}

/// The models of table options.
pub open spec fn table_options_view(s: Seq<LogicalTableOption>) -> Seq<LogicalTableOptionView> {
    Seq::new(s.len(), |i: int| s[i].view())
}

/// Appending an element appends its model.
pub broadcast proof fn lemma_table_options_push(s: Seq<LogicalTableOption>, e: LogicalTableOption)
    ensures
        #[trigger] table_options_view(s.push(e)) == table_options_view(s).push(e.view()),
{
    assert(table_options_view(s.push(e)) =~= table_options_view(s).push(e.view()));
}

/// The models of indexed aggregates.
pub open spec fn index_aggregates_view(s: Seq<LogicalAggregatingIndexExpr>) -> Seq<
    LogicalAggregatingIndexExprView,
> {
    Seq::new(s.len(), |i: int| s[i].view())
}

/// Appending an element appends its model.
pub broadcast proof fn lemma_index_aggregates_push(
    s: Seq<LogicalAggregatingIndexExpr>,
    e: LogicalAggregatingIndexExpr,
)
    ensures
        #[trigger] index_aggregates_view(s.push(e)) == index_aggregates_view(s).push(e.view()),
{
    assert(index_aggregates_view(s.push(e)) =~= index_aggregates_view(s).push(e.view()));
}

/// The models of `MERGE` branches.
pub open spec fn merge_clauses_view(s: Seq<LogicalMergeClause>) -> Seq<LogicalMergeClauseView> {
    Seq::new(s.len(), |i: int| s[i].view())
}

/// Appending an element appends its model.
pub broadcast proof fn lemma_merge_clauses_push(s: Seq<LogicalMergeClause>, e: LogicalMergeClause)
    ensures
        #[trigger] merge_clauses_view(s.push(e)) == merge_clauses_view(s).push(e.view()),
{
    assert(merge_clauses_view(s.push(e)) =~= merge_clauses_view(s).push(e.view()));
}

/// The models of check constraints.
pub open spec fn checks_view(s: Seq<LogicalCheckConstraint>) -> Seq<LogicalCheckConstraintView> {
    Seq::new(s.len(), |i: int| s[i].view())
}

/// Appending an element appends its model.
pub broadcast proof fn lemma_checks_push(s: Seq<LogicalCheckConstraint>, e: LogicalCheckConstraint)
    ensures
        #[trigger] checks_view(s.push(e)) == checks_view(s).push(e.view()),
{
    assert(checks_view(s.push(e)) =~= checks_view(s).push(e.view()));
}
/// The columns that a plan produces.
pub open spec fn plan_schema(p: LogicalPlanView) -> SchemaView {
    match p {
        LogicalPlanView::Query(q) => query::query_schema(q),
        LogicalPlanView::Insert { schema, .. } => schema,
        LogicalPlanView::Update { schema, .. } => schema,
        LogicalPlanView::Delete { schema, .. } => schema,
        LogicalPlanView::Merge { schema, .. } => schema,
        LogicalPlanView::Truncate { schema, .. } => schema,
        LogicalPlanView::CreateTable(t) => t.schema,
        LogicalPlanView::CreateIndex(i) => i.schema,
        LogicalPlanView::DropTable { schema, .. } => schema,
        LogicalPlanView::DropIndex { schema, .. } => schema,
        LogicalPlanView::AlterTable { schema, .. } => schema,
        LogicalPlanView::CreateSequence { schema, .. } => schema,
        LogicalPlanView::AlterSequence { schema, .. } => schema,
        LogicalPlanView::DropSequence { schema, .. } => schema,
        LogicalPlanView::CreateSchema { schema, .. } => schema,
        LogicalPlanView::DropSchema { schema, .. } => schema,
        LogicalPlanView::CreateRole { schema, .. } => schema,
        LogicalPlanView::AlterRole { schema, .. } => schema,
        LogicalPlanView::DropRole { schema, .. } => schema,
        LogicalPlanView::Comment { schema, .. } => schema,
        LogicalPlanView::CreateTypeEnum { schema, .. } => schema,
        LogicalPlanView::CreateTypeComposite { schema, .. } => schema,
        LogicalPlanView::CreateDomain { schema, .. } => schema,
        LogicalPlanView::CreateOperator { schema, .. } => schema,
        LogicalPlanView::CreatePolicy { schema, .. } => schema,
        LogicalPlanView::CreateView { schema, .. } => schema,
        LogicalPlanView::CreateMaterializedView { schema, .. } => schema,
        LogicalPlanView::AlterView { schema, .. } => schema,
        LogicalPlanView::Copy(c) => c.schema,
        LogicalPlanView::Begin { schema } => schema,
        LogicalPlanView::Commit { schema } => schema,
        LogicalPlanView::Rollback { schema } => schema,
        LogicalPlanView::Savepoint { schema, .. } => schema,
        LogicalPlanView::RollbackToSavepoint { schema, .. } => schema,
        LogicalPlanView::ReleaseSavepoint { schema, .. } => schema,
        LogicalPlanView::PrepareTransaction { schema, .. } => schema,
        LogicalPlanView::CommitPrepared { schema, .. } => schema,
        LogicalPlanView::RollbackPrepared { schema, .. } => schema,
    }
}

impl LogicalPlan {
    /// The columns that the plan produces.
    pub fn schema(&self) -> (s: &Schema)
        ensures
            s@ == plan_schema(self@),
    {
        match self {
            LogicalPlan::Query(q) => q.schema(),
            LogicalPlan::Insert { schema, .. } => schema,
            LogicalPlan::Update { schema, .. } => schema,
            LogicalPlan::Delete { schema, .. } => schema,
            LogicalPlan::Merge { schema, .. } => schema,
            LogicalPlan::Truncate { schema, .. } => schema,
            LogicalPlan::CreateTable(t) => &t.schema,
            LogicalPlan::CreateIndex(i) => &i.schema,
            LogicalPlan::DropTable { schema, .. } => schema,
            LogicalPlan::DropIndex { schema, .. } => schema,
            LogicalPlan::AlterTable { schema, .. } => schema,
            LogicalPlan::CreateSequence { schema, .. } => schema,
            LogicalPlan::AlterSequence { schema, .. } => schema,
            LogicalPlan::DropSequence { schema, .. } => schema,
            LogicalPlan::CreateSchema { schema, .. } => schema,
            LogicalPlan::DropSchema { schema, .. } => schema,
            LogicalPlan::CreateRole { schema, .. } => schema,
            LogicalPlan::AlterRole { schema, .. } => schema,
            LogicalPlan::DropRole { schema, .. } => schema,
            LogicalPlan::Comment { schema, .. } => schema,
            LogicalPlan::CreateTypeEnum { schema, .. } => schema,
            LogicalPlan::CreateTypeComposite { schema, .. } => schema,
            LogicalPlan::CreateDomain { schema, .. } => schema,
            LogicalPlan::CreateOperator { schema, .. } => schema,
            LogicalPlan::CreatePolicy { schema, .. } => schema,
            LogicalPlan::CreateView { schema, .. } => schema,
            LogicalPlan::CreateMaterializedView { schema, .. } => schema,
            LogicalPlan::AlterView { schema, .. } => schema,
            LogicalPlan::Copy(c) => &c.schema,
            LogicalPlan::Begin { schema } => schema,
            LogicalPlan::Commit { schema } => schema,
            LogicalPlan::Rollback { schema } => schema,
            LogicalPlan::Savepoint { schema, .. } => schema,
            LogicalPlan::RollbackToSavepoint { schema, .. } => schema,
            LogicalPlan::ReleaseSavepoint { schema, .. } => schema,
            LogicalPlan::PrepareTransaction { schema, .. } => schema,
            LogicalPlan::CommitPrepared { schema, .. } => schema,
            LogicalPlan::RollbackPrepared { schema, .. } => schema,
        }
    }
}

/// Whether an outer column occurs in one of the assignments.
pub open spec fn assignments_have_outer(s: Seq<(usize, ScalarExprView)>) -> bool {
    exists|i: int| 0 <= i < s.len() && query::scalar_has_outer((#[trigger] s[i]).1)
}

/// Whether an outer column occurs in an optional expression.
pub open spec fn optional_has_outer(e: Option<ScalarExprView>) -> bool {
    match e {
        Some(x) => query::scalar_has_outer(x),
        None => false,
    }
}

/// Whether an outer column occurs in what an insert does with conflicts.
pub open spec fn conflict_has_outer(c: Option<LogicalOnConflictView>) -> bool {
    match c {
        Some(LogicalOnConflictView::DoUpdate { assignments, where_clause, .. }) => {
            assignments_have_outer(assignments) || optional_has_outer(where_clause)
        },
        _ => false,
    }
}

/// Whether an outer column occurs in a `MERGE` branch.
pub open spec fn merge_clause_has_outer(c: LogicalMergeClauseView) -> bool {
    optional_has_outer(c.condition) || match c.action {
        LogicalMergeActionView::Update { assignments } => assignments_have_outer(assignments),
        LogicalMergeActionView::Delete => false,
        LogicalMergeActionView::Insert { values, .. } => query::any_has_outer(values),
    }
}

/// Whether an outer column occurs in one of the `MERGE` branches.
pub open spec fn any_merge_clause_has_outer(s: Seq<LogicalMergeClauseView>) -> bool {
    exists|i: int| 0 <= i < s.len() && merge_clause_has_outer(#[trigger] s[i])
}

/// Whether an outer column occurs in the rows that a plan reads or writes.
/// Definitions of tables, indexes and other objects are bound on their own and
/// hold none.
pub open spec fn plan_has_outer(p: LogicalPlanView) -> bool {
    match p {
        LogicalPlanView::Query(q) => query::query_has_outer(q),
        LogicalPlanView::Insert { source, on_conflict, returning, .. } => query::query_has_outer(
            source,
        ) || conflict_has_outer(on_conflict) || query::any_output_has_outer(returning),
        LogicalPlanView::Update { assignments, input, returning, .. } => assignments_have_outer(
            assignments,
        ) || query::query_has_outer(input) || query::any_output_has_outer(returning),
        LogicalPlanView::Delete { input, returning, .. } => query::query_has_outer(input)
            || query::any_output_has_outer(returning),
        LogicalPlanView::Merge { source, on, clauses, .. } => query::query_has_outer(source)
            || query::scalar_has_outer(on) || any_merge_clause_has_outer(clauses),
        _ => false,
    }
}

fn any_assignment_outer(list: &Vec<(usize, ScalarExpr)>) -> (yes: bool)
    ensures
        yes == assignments_have_outer(assignments_view(list@)),
{
    let mut i: usize = 0;
    while i < list.len()
        invariant
            i <= list.len(),
            forall|j: int|
                0 <= j < i ==> !query::scalar_has_outer((#[trigger] assignments_view(list@)[j]).1),
        decreases list.len() - i,
    {
        if query::expr_contains_outer(&list[i].1) {
            assert(query::scalar_has_outer(assignments_view(list@)[i as int].1));
            return true;
        }
        i = i + 1;
    }
    false
}

fn optional_outer(e: &Option<ScalarExpr>) -> (yes: bool)
    ensures
        yes == optional_has_outer(
            match e {
                Some(x) => Some(x@),
                None => None,
            },
        ),
{
    match e {
        Some(x) => query::expr_contains_outer(x),
        None => false,
    }
}

fn any_merge_clause_outer(list: &Vec<LogicalMergeClause>) -> (yes: bool)
    ensures
        yes == any_merge_clause_has_outer(merge_clauses_view(list@)),
{
    let mut i: usize = 0;
    while i < list.len()
        invariant
            i <= list.len(),
            forall|j: int|
                0 <= j < i ==> !merge_clause_has_outer(#[trigger] merge_clauses_view(list@)[j]),
        decreases list.len() - i,
    {
        let in_action = match &list[i].action {
            LogicalMergeAction::Update { assignments } => any_assignment_outer(assignments),
            LogicalMergeAction::Delete => false,
            LogicalMergeAction::Insert { values, .. } => query::any_outer(values),
        };
        if optional_outer(&list[i].condition) || in_action {
            assert(merge_clause_has_outer(merge_clauses_view(list@)[i as int]));
            return true;
        }
        assert(!merge_clause_has_outer(merge_clauses_view(list@)[i as int]));
        i = i + 1;
    }
    false
}

fn conflict_outer(c: &Option<LogicalOnConflict>) -> (yes: bool)
    ensures
        yes == conflict_has_outer(
            match c {
                Some(x) => Some(x@),
                None => None,
            },
        ),
{
    match c {
        Some(LogicalOnConflict::DoUpdate { assignments, where_clause, .. }) => {
            let in_assignments = any_assignment_outer(assignments);
            let in_where = optional_outer(where_clause);
            in_assignments || in_where
        },
        _ => false,
    }
}

/// Tells whether a column of an enclosing query occurs in a plan.
pub fn plan_contains_outer_column(plan: &LogicalPlan) -> (yes: bool)
    ensures
        yes == plan_has_outer(plan@),
{
    match plan {
        LogicalPlan::Query(q) => query::query_contains_outer_column(q),
        LogicalPlan::Insert { source, on_conflict, returning, .. } => {
            let in_source = query::query_contains_outer_column(source);
            let in_conflict = conflict_outer(on_conflict);
            let in_returning = query::any_output_outer(returning);
            in_source || in_conflict || in_returning
        },
        LogicalPlan::Update { assignments, input, returning, .. } => {
            let in_assignments = any_assignment_outer(assignments);
            let in_input = query::query_contains_outer_column(input);
            let in_returning = query::any_output_outer(returning);
            in_assignments || in_input || in_returning
        },
        LogicalPlan::Delete { input, returning, .. } => {
            let in_input = query::query_contains_outer_column(input);
            let in_returning = query::any_output_outer(returning);
            in_input || in_returning
        },
        LogicalPlan::Merge { source, on, clauses, .. } => {
            let in_source = query::query_contains_outer_column(source);
            let in_on = query::expr_contains_outer(on);
            let in_clauses = any_merge_clause_outer(clauses);
            in_source || in_on || in_clauses
        },
        _ => false,
    }
}

} // verus!

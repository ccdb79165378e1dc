//! Binding of statements on views and on row-level security.
use crate::ast::{
    AlterViewAction, AlterViewStmt, BinaryOp, CreateMaterializedViewStmt, CreatePolicyStmt,
    CreateViewStmt, Expr, Identifier, Literal, PolicyCommand, PolicyPermissiveness,
};
use crate::binder::names::{object_name_namespace, object_name_simple};
use crate::binder::select::bind_select;
use crate::binder::{bound, names};
use crate::catalog::{Catalog, CatalogView};
use crate::dialect::ddl::shared;
use crate::dialect::ddl::shared::{all_lower_names, unparen_expr};
use crate::dialect::dml;
use crate::dialect::dml::lookup_target_table;
use crate::error::{schema_or_mismatch, PlanError, PlanErrorView};
use crate::plan::{
    LogicalAlterViewAction, LogicalAlterViewActionView, LogicalPlan, LogicalPlanView,
    LogicalRlsCommand, LogicalRlsPermissiveness, LogicalRlsPolicy, LogicalRlsPolicyView,
    LogicalTenantPolicyExpr, LogicalTenantPolicyExprView,
};
use crate::query::QueryPlanView;
use crate::schema::{Field, FieldView, Schema, SchemaView};
use crate::scope::ScopeStack;
use crate::text::{cat5, show_usize, text_eq, to_lower};
use crate::{datatype, error, query, schema, text};
use vstd::prelude::*;

verus! {

/// The setting that `current_setting(setting, true)` reads.
pub open spec fn setting_of(e: Expr) -> Option<Seq<char>> {
    match shared::unparened(e) {
        Expr::Call { name, args, distinct, over, .. } => if !distinct && over is None
            && names::simple_name(name) == "current_setting"@ && args@.len() == 2 {
            match (shared::unparened(args@[0]), shared::unparened(args@[1])) {
                (
                    Expr::Literal(Literal::Text { value }),
                    Expr::Literal(Literal::Bool { value: missing_ok }),
                ) => if missing_ok {
                    Some(text::lower(value@))
                } else {
                    None
                },
                _ => None,
            }
        } else {
            None
        },
        _ => None,
    }
}

fn text_literal(e: &Expr) -> (found: Option<&String>)
    ensures
        (match found {
            Some(s) => Some(s@),
            None => None,
        }) == (match shared::unparened(*e) {
            Expr::Literal(Literal::Text { value }) => Some(value@),
            _ => None,
        }),
{
    match unparen_expr(e) {
        Expr::Literal(lit) => match lit {
            Literal::Text { value } => Some(value),
            _ => None,
        },
        _ => None,
    }
}

fn is_true_literal(e: &Expr) -> (yes: bool)
    ensures
        yes == (match shared::unparened(*e) {
            Expr::Literal(Literal::Bool { value }) => value,
            _ => false,
        }),
{
    match unparen_expr(e) {
        Expr::Literal(lit) => match lit {
            Literal::Bool { value } => *value,
            _ => false,
        },
        _ => false,
    }
}

/// Finds the setting that `current_setting(setting, true)` reads.
pub fn extract_current_setting_name(expr: &Expr) -> (found: Option<String>)
    ensures
        (match found {
            Some(s) => Some(s@),
            None => None,
        }) == setting_of(*expr),
{
    match unparen_expr(expr) {
        Expr::Call { name, args, distinct, over, .. } => {
            let simple = object_name_simple(name);
            if *distinct || over.is_some() || !text_eq(simple.as_str(), "current_setting")
                || args.len() != 2 {
                return None;
            }
            if !is_true_literal(&args[1]) {
                return None;
            }
            match text_literal(&args[0]) {
                Some(value) => Some(to_lower(value.as_str())),
                None => None,
            }
        },
        _ => None,
    }
}

/// The predicate that compares a text column to a setting.
pub open spec fn tenant_pair(column: Expr, setting: Expr, row: SchemaView) -> Option<
    LogicalTenantPolicyExprView,
> {
    match shared::unparened(column) {
        Expr::Column { name } => if name.parts@.len() != 1 {
            None
        } else {
            let column_name = text::lower(name.parts@[0].value@);
            match schema::find_field(row, column_name) {
                None => None,
                Some(i) => if !datatype::textlike(row.fields[i].data_type) {
                    None
                } else {
                    match setting_of(setting) {
                        None => None,
                        Some(setting_name) => Some(
                            LogicalTenantPolicyExprView {
                                column_index: i as usize,
                                column_name,
                                setting_name,
                            },
                        ),
                    }
                },
            }
        },
        _ => None,
    }
}

/// An optional predicate as a model.
pub open spec fn tenant_view(e: Option<LogicalTenantPolicyExpr>) -> Option<
    LogicalTenantPolicyExprView,
> {
    match e {
        Some(x) => Some(x@),
        None => None,
    }
}

/// Binds the predicate that compares a text column to a setting.
pub fn bind_tenant_policy_pair(
    column_expr: &Expr,
    setting_expr: &Expr,
    table_schema: &Schema,
) -> (found:
    Option<LogicalTenantPolicyExpr>)
    ensures
        tenant_view(found) == tenant_pair(*column_expr, *setting_expr, table_schema@),
{
    match unparen_expr(column_expr) {
        Expr::Column { name } => {
            if name.parts.len() != 1 {
                return None;
            }
            let column_name = to_lower(name.parts[0].value.as_str());
            let column_index: usize = match table_schema.find(column_name.as_str()) {
                Some(i) => i,
                None => return None,
            };
            if !table_schema.field_at(column_index).data_type.is_textlike() {
                return None;
            }
            match extract_current_setting_name(setting_expr) {
                None => None,
                Some(setting_name) => Some(
                    LogicalTenantPolicyExpr { column_index, column_name, setting_name },
                ),
            }
        },
        _ => None,
    }
}

/// The tenant predicate that an expression states, with the column on either
/// side.
pub open spec fn tenant_predicate(e: Expr, row: SchemaView) -> Result<
    LogicalTenantPolicyExprView,
    PlanErrorView,
> {
    match shared::unparened(e) {
        Expr::Binary { op, left, right } => if op == BinaryOp::Eq {
            match tenant_pair(*left, *right, row) {
                Some(p) => Ok(p),
                None => match tenant_pair(*right, *left, row) {
                    Some(p) => Ok(p),
                    None => Err(
                        PlanErrorView::NotSupported(
                            "CREATE POLICY predicate must compare a column to current_setting(setting, true)"@,
                        ),
                    ),
                },
            }
        } else {
            Err(
                PlanErrorView::NotSupported(
                    "CREATE POLICY currently supports tenant equality predicates"@,
                ),
            )
        },
        _ => Err(
            PlanErrorView::NotSupported(
                "CREATE POLICY currently supports tenant equality predicates"@,
            ),
        ),
    }
}

/// A tenant predicate with its outcome as models.
pub open spec fn tenant_outcome(r: Result<LogicalTenantPolicyExpr, PlanError>) -> Result<
    LogicalTenantPolicyExprView,
    PlanErrorView,
> {
    match r {
        Ok(x) => Ok(x@),
        Err(e) => Err(e@),
    }
}

/// Binds the tenant predicate that an expression states.
pub fn bind_tenant_policy_expr(expr: &Expr, table_schema: &Schema) -> (made: Result<
    LogicalTenantPolicyExpr,
    PlanError,
>)
    ensures
        tenant_outcome(made) == tenant_predicate(*expr, table_schema@),
{
    match unparen_expr(expr) {
        Expr::Binary { op, left, right } => {
            if *op == BinaryOp::Eq {
                if let Some(p) = bind_tenant_policy_pair(left, right, table_schema) {
                    return Ok(p);
                }
                if let Some(p) = bind_tenant_policy_pair(right, left, table_schema) {
                    return Ok(p);
                }
                return Err(
                    PlanError::NotSupported(
                        "CREATE POLICY predicate must compare a column to current_setting(setting, true)",
                    ),
                );
            }
            Err(
                PlanError::NotSupported(
                    "CREATE POLICY currently supports tenant equality predicates",
                ),
            )
        },
        _ => Err(
            PlanError::NotSupported("CREATE POLICY currently supports tenant equality predicates"),
        ),
    }
}

/// An optional tenant predicate.
pub open spec fn optional_predicate(e: Option<Expr>, row: SchemaView) -> Result<
    Option<LogicalTenantPolicyExprView>,
    PlanErrorView,
> {
    match e {
        None => Ok(None),
        Some(e) => match tenant_predicate(e, row) {
            Err(e) => Err(e),
            Ok(p) => Ok(Some(p)),
        },
    }
}

fn bind_optional_predicate(e: &Option<Expr>, row: &Schema) -> (made: Result<
    Option<LogicalTenantPolicyExpr>,
    PlanError,
>)
    ensures
        (match made {
            Ok(p) => Ok(tenant_view(p)),
            Err(e) => Err(e@),
        }) == optional_predicate(*e, row@),
{
    match e {
        None => Ok(None),
        Some(e) => {
            let p = bind_tenant_policy_expr(e, row)?;
            Ok(Some(p))
        },
    }
}

/// How a policy combines with others.
pub open spec fn policy_permissiveness(p: PolicyPermissiveness) -> LogicalRlsPermissiveness {
    match p {
        PolicyPermissiveness::Permissive => LogicalRlsPermissiveness::Permissive,
        PolicyPermissiveness::Restrictive => LogicalRlsPermissiveness::Restrictive,
    }
}

/// The commands that a policy governs.
pub open spec fn policy_command(c: PolicyCommand) -> LogicalRlsCommand {
    match c {
        PolicyCommand::All => LogicalRlsCommand::All,
        PolicyCommand::Select => LogicalRlsCommand::Select,
        PolicyCommand::Insert => LogicalRlsCommand::Insert,
        PolicyCommand::Update => LogicalRlsCommand::Update,
        PolicyCommand::Delete => LogicalRlsCommand::Delete,
    }
}

fn bind_permissiveness(p: PolicyPermissiveness) -> (made: LogicalRlsPermissiveness)
    ensures
        made == policy_permissiveness(p),
{
    match p {
        PolicyPermissiveness::Permissive => LogicalRlsPermissiveness::Permissive,
        PolicyPermissiveness::Restrictive => LogicalRlsPermissiveness::Restrictive,
    }
}

fn bind_command(c: PolicyCommand) -> (made: LogicalRlsCommand)
    ensures
        made == policy_command(c),
{
    match c {
        PolicyCommand::All => LogicalRlsCommand::All,
        PolicyCommand::Select => LogicalRlsCommand::Select,
        PolicyCommand::Insert => LogicalRlsCommand::Insert,
        PolicyCommand::Update => LogicalRlsCommand::Update,
        PolicyCommand::Delete => LogicalRlsCommand::Delete,
    }
}

/// What a `CREATE POLICY` is bound to.
pub open spec fn bound_create_policy(s: CreatePolicyStmt, cat: CatalogView) -> Result<
    LogicalPlanView,
    PlanErrorView,
> {
    match dml::target_table(s.table, cat) {
        Err(e) => Err(e),
        Ok((table_name, row)) => match optional_predicate(s.using, row) {
            Err(e) => Err(e),
            Ok(using) => match optional_predicate(s.with_check, row) {
                Err(e) => Err(e),
                Ok(with_check) => if using is None && with_check is None {
                    Err(
                        PlanErrorView::NotSupported("CREATE POLICY requires USING or WITH CHECK"@),
                    )
                } else {
                    Ok(
                        LogicalPlanView::CreatePolicy {
                            policy: LogicalRlsPolicyView {
                                policy_name: text::lower(s.name.value@),
                                table_name,
                                permissiveness: policy_permissiveness(s.permissiveness),
                                command: policy_command(s.command),
                                roles: shared::lower_names(s.roles@),
                                using,
                                with_check,
                            },
                            schema: schema::empty_schema(),
                        },
                    )
                },
            },
        },
    }
}

/// Binds a `CREATE POLICY` statement.
pub fn bind_create_policy<C: Catalog>(s: &CreatePolicyStmt, catalog: &C) -> (made: Result<
    LogicalPlan,
    PlanError,
>)
    ensures
        error::plan_outcome(made) == bound_create_policy(*s, catalog.model()),
{
    let (table_name, row) = lookup_target_table(catalog, &s.table)?;
    let using = bind_optional_predicate(&s.using, &row)?;
    let with_check = bind_optional_predicate(&s.with_check, &row)?;
    if using.is_none() && with_check.is_none() {
        return Err(PlanError::NotSupported("CREATE POLICY requires USING or WITH CHECK"));
    }
    Ok(
        LogicalPlan::CreatePolicy {
            policy: LogicalRlsPolicy {
                policy_name: to_lower(s.name.value.as_str()),
                table_name,
                permissiveness: bind_permissiveness(s.permissiveness),
                command: bind_command(s.command),
                roles: all_lower_names(&s.roles),
                using,
                with_check,
            },
            schema: Schema::empty(),
        },
    )
}

/// The columns of a query under other names.
pub open spec fn renamed_fields(row: SchemaView, aliases: Seq<Identifier>) -> Seq<FieldView> {
    Seq::new(
        aliases.len(),
        |i: int| FieldView { name: aliases[i].value@, ..row.fields[i] },
    )
}

/// The columns of a view: those of its query, under the stated names where
/// there are any.
pub open spec fn view_columns(row: SchemaView, aliases: Seq<Identifier>) -> Result<
    SchemaView,
    PlanErrorView,
> {
    if aliases.len() == 0 {
        Ok(row)
    } else if aliases.len() != row.fields.len() {
        Err(
            PlanErrorView::TypeMismatch(
                "CREATE MATERIALIZED VIEW column list has "@ + text::decimal(aliases.len())
                    + " names but query returns "@ + text::decimal(row.fields.len())
                    + " columns"@,
            ),
        )
    } else {
        error::labelled_schema(""@, renamed_fields(row, aliases))
    }
}

fn rename_fields(row: &Schema, aliases: &Vec<Identifier>) -> (fields: Vec<Field>)
    requires
        aliases@.len() == row@.fields.len(),
    ensures
        schema::fields_view(fields@) == renamed_fields(row@, aliases@),
{
    let mut fields: Vec<Field> = Vec::new();
    let mut i: usize = 0;
    while i < aliases.len()
        invariant
            i <= aliases.len(),
            fields.len() == i,
            aliases@.len() == row@.fields.len(),
            forall|j: int| 0 <= j < i ==> (#[trigger] fields@[j])@ == renamed_fields(
                row@,
                aliases@,
            )[j],
        decreases aliases.len() - i,
    {
        let f = row.field_at(i);
        fields.push(
            Field {
                name: aliases[i].value.clone(),
                data_type: f.data_type.duplicate(),
                nullable: f.nullable,
            },
        );
        i = i + 1;
    }
    assert(schema::fields_view(fields@) =~= renamed_fields(row@, aliases@));
    fields
}

/// Finds the columns of a view.
pub fn materialized_view_schema(source_schema: &Schema, aliases: &Vec<Identifier>) -> (made: Result<
    Schema,
    PlanError,
>)
    ensures
        error::schema_outcome(made) == view_columns(source_schema@, aliases@),
{
    if aliases.len() == 0 {
        return Ok(source_schema.duplicate());
    }
    if aliases.len() != source_schema.len() {
        let stated = show_usize(aliases.len());
        let found = show_usize(source_schema.len());
        return Err(
            PlanError::TypeMismatch(
                cat5(
                    "CREATE MATERIALIZED VIEW column list has ",
                    stated.as_str(),
                    " names but query returns ",
                    found.as_str(),
                    " columns",
                ),
            ),
        );
    }
    schema_or_mismatch("", rename_fields(source_schema, aliases))
}

/// A view keeps the types of its query, column by column.
pub proof fn views_keep_types(row: SchemaView, aliases: Seq<Identifier>)
    ensures
        view_columns(row, aliases) matches Ok(out) ==> {
            &&& out.fields.len() == row.fields.len()
            &&& forall|i: int|
                0 <= i < row.fields.len() ==> (#[trigger] out.fields[i]).data_type
                    == row.fields[i].data_type && out.fields[i].nullable
                    == row.fields[i].nullable
        },
{
}

/// The query of a view and the view's columns.
pub open spec fn view_source(
    q: Result<QueryPlanView, PlanErrorView>,
    aliases: Seq<Identifier>,
    empty: Seq<char>,
) -> Result<(QueryPlanView, SchemaView), PlanErrorView> {
    match q {
        Err(e) => Err(e),
        Ok(source) => match view_columns(query::query_schema(source), aliases) {
            Err(e) => Err(e),
            Ok(output) => if output.fields.len() == 0 {
                Err(PlanErrorView::NotSupported(empty))
            } else {
                Ok((source, output))
            },
        },
    }
}

/// What a `CREATE MATERIALIZED VIEW` is bound to.
pub open spec fn bound_create_materialized_view(
    s: CreateMaterializedViewStmt,
    cat: CatalogView,
) -> Result<
    LogicalPlanView,
    PlanErrorView,
> {
    let table_name = names::simple_name(s.name);
    let namespace = names::namespace_of(s.name);
    if !s.if_not_exists && (cat.table_in)(namespace, table_name) is Some {
        Err(PlanErrorView::DuplicateTable(table_name))
    } else {
        match view_source(
            bound::bound_select(*s.source, cat, Seq::empty()),
            s.columns@,
            "CREATE MATERIALIZED VIEW: zero columns"@,
        ) {
            Err(e) => Err(e),
            Ok((source, output)) => Ok(
                LogicalPlanView::CreateMaterializedView {
                    table_name,
                    namespace,
                    output,
                    source,
                    if_not_exists: s.if_not_exists,
                    schema: schema::empty_schema(),
                },
            ),
        }
    }
}

/// Binds a `CREATE MATERIALIZED VIEW` statement.
pub fn bind_create_materialized_view<C: Catalog>(
    s: &CreateMaterializedViewStmt,
    catalog: &C,
) -> (made:
    Result<LogicalPlan, PlanError>)
    ensures
        error::plan_outcome(made) == bound_create_materialized_view(*s, catalog.model()),
{
    let table_name = object_name_simple(&s.name);
    let namespace = object_name_namespace(&s.name);
    if !s.if_not_exists && catalog.lookup_table_in_schema(
        namespace.as_str(),
        table_name.as_str(),
    ).is_some() {
        return Err(PlanError::DuplicateTable(table_name));
    }
    let mut scope = ScopeStack::new();
    let source = bind_select(&s.source, catalog, &mut scope)?;
    let output = materialized_view_schema(source.schema(), &s.columns)?;
    if output.is_empty() {
        return Err(PlanError::NotSupported("CREATE MATERIALIZED VIEW: zero columns"));
    }
    Ok(
        LogicalPlan::CreateMaterializedView {
            table_name,
            namespace,
            output,
            source,
            if_not_exists: s.if_not_exists,
            schema: Schema::empty(),
        },
    )
}

/// What a `CREATE VIEW` is bound to.
pub open spec fn bound_create_view(s: CreateViewStmt, cat: CatalogView) -> Result<
    LogicalPlanView,
    PlanErrorView,
> {
    let table_name = names::simple_name(s.name);
    let namespace = names::namespace_of(s.name);
    if !s.or_replace && (cat.table_in)(namespace, table_name) is Some {
        Err(PlanErrorView::DuplicateTable(table_name))
    } else {
        match view_source(
            bound::bound_select(*s.source, cat, Seq::empty()),
            s.columns@,
            "CREATE VIEW: zero columns"@,
        ) {
            Err(e) => Err(e),
            Ok((source, output)) => Ok(
                LogicalPlanView::CreateView {
                    table_name,
                    namespace,
                    output,
                    source,
                    source_sql: s.source_sql@,
                    or_replace: s.or_replace,
                    schema: schema::empty_schema(),
                },
            ),
        }
    }
}

/// Binds a `CREATE VIEW` statement.
pub fn bind_create_view<C: Catalog>(s: &CreateViewStmt, catalog: &C) -> (made: Result<
    LogicalPlan,
    PlanError,
>)
    ensures
        error::plan_outcome(made) == bound_create_view(*s, catalog.model()),
{
    let table_name = object_name_simple(&s.name);
    let namespace = object_name_namespace(&s.name);
    if !s.or_replace && catalog.lookup_table_in_schema(
        namespace.as_str(),
        table_name.as_str(),
    ).is_some() {
        return Err(PlanError::DuplicateTable(table_name));
    }
    let mut scope = ScopeStack::new();
    let source = bind_select(&s.source, catalog, &mut scope)?;
    let output = materialized_view_schema(source.schema(), &s.columns)?;
    if output.is_empty() {
        return Err(PlanError::NotSupported("CREATE VIEW: zero columns"));
    }
    Ok(
        LogicalPlan::CreateView {
            table_name,
            namespace,
            output,
            source,
            source_sql: s.source_sql.clone(),
            or_replace: s.or_replace,
            schema: Schema::empty(),
        },
    )
}

/// The change of a view.
pub open spec fn view_change(action: AlterViewAction) -> Result<
    LogicalAlterViewActionView,
    PlanErrorView,
> {
    match action {
        AlterViewAction::RenameView { new_name } => Ok(
            LogicalAlterViewActionView::RenameView { new_name: text::lower(new_name.value@) },
        ),
        AlterViewAction::SetSchema { schema_name } => Ok(
            LogicalAlterViewActionView::SetSchema { new_schema: text::lower(schema_name.value@) },
        ),
        AlterViewAction::ReplaceDefinition { .. } => Err(
            PlanErrorView::NotSupported(
                "ALTER VIEW ... AS SELECT is not supported until dependency-safe view replacement lands"@,
            ),
        ),
    }
}

fn bind_view_change(action: &AlterViewAction) -> (made: Result<LogicalAlterViewAction, PlanError>)
    ensures
        (match made {
            Ok(x) => Ok(x@),
            Err(e) => Err(e@),
        }) == view_change(*action),
{
    match action {
        AlterViewAction::RenameView { new_name } => Ok(
            LogicalAlterViewAction::RenameView { new_name: to_lower(new_name.value.as_str()) },
        ),
        AlterViewAction::SetSchema { schema_name } => Ok(
            LogicalAlterViewAction::SetSchema { new_schema: to_lower(schema_name.value.as_str()) },
        ),
        AlterViewAction::ReplaceDefinition { .. } => Err(
            PlanError::NotSupported(
                "ALTER VIEW ... AS SELECT is not supported until dependency-safe view replacement lands",
            ),
        ),
    }
}

/// What an `ALTER VIEW` is bound to.
pub open spec fn bound_alter_view(s: AlterViewStmt, cat: CatalogView) -> Result<
    LogicalPlanView,
    PlanErrorView,
> {
    match dml::target_table(s.name, cat) {
        Err(e) => Err(e),
        Ok((view_name, _)) => match view_change(s.action) {
            Err(e) => Err(e),
            Ok(action) => Ok(
                LogicalPlanView::AlterView { view_name, action, schema: schema::empty_schema() },
            ),
        },
    }
}

/// Binds an `ALTER VIEW` statement.
pub fn bind_alter_view<C: Catalog>(s: &AlterViewStmt, catalog: &C) -> (made: Result<
    LogicalPlan,
    PlanError,
>)
    ensures
        error::plan_outcome(made) == bound_alter_view(*s, catalog.model()),
{
    let (view_name, _) = lookup_target_table(catalog, &s.name)?;
    let action = bind_view_change(&s.action)?;
    Ok(LogicalPlan::AlterView { view_name, action, schema: Schema::empty() })
}

} // verus!

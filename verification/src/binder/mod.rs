//! Binding of statements to logical plans.
//!
//! Binding resolves names against a catalog, checks types, and puts the parts
//! of a statement into the order in which they are evaluated.
pub mod aggregate;
pub mod bound;
pub mod changes;
pub mod ddl;
pub mod definitions;
pub mod dml;
pub mod excluded;
pub mod faithful;
pub mod headings;
pub mod meaning;
pub mod names;
pub mod naming;
pub mod relation;
pub mod select;
pub mod shape;
pub mod soundness;
pub mod sources;
pub mod typing;
pub mod widening;

use crate::ast::Statement;
use crate::catalog::{Catalog, CatalogView};
use crate::error::{PlanError, PlanErrorView};
use crate::plan::{LogicalPlan, LogicalPlanView};
use crate::schema::Schema;
use crate::scope::ScopeStack;
use crate::text::to_lower;
use crate::{error, schema, text};
use vstd::prelude::*;

verus! {

/// What a statement is bound to against a catalog.
pub open spec fn bound_statement(stmt: Statement, cat: CatalogView) -> Result<
    LogicalPlanView,
    PlanErrorView,
> {
    let none = schema::empty_schema();
    match stmt {
        Statement::Select(s) => match bound::bound_select(s, cat, Seq::empty()) {
            Ok(q) => Ok(LogicalPlanView::Query(q)),
            Err(e) => Err(e),
        },
        Statement::Insert(s) => dml::bound_insert(s, cat, Seq::empty()),
        Statement::Update(s) => dml::bound_update(s, cat, Seq::empty()),
        Statement::Delete(s) => dml::bound_delete(s, cat, Seq::empty()),
        Statement::Truncate(s) => dml::bound_truncate(s, cat),
        Statement::CreateTable(s) => ddl::bound_create_table(s, cat),
        Statement::CreateIndex(s) => ddl::bound_create_index(s, cat),
        Statement::DropTable(s) => ddl::bound_drop_table(s, cat),
        Statement::AlterTable(s) => ddl::bound_alter_table(s, cat),
        Statement::Begin => Ok(LogicalPlanView::Begin { schema: none }),
        Statement::Commit => Ok(LogicalPlanView::Commit { schema: none }),
        Statement::Rollback => Ok(LogicalPlanView::Rollback { schema: none }),
        Statement::Savepoint(s) => Ok(
            LogicalPlanView::Savepoint { name: text::lower(s.name.value@), schema: none },
        ),
        Statement::RollbackToSavepoint(s) => Ok(
            LogicalPlanView::RollbackToSavepoint { name: text::lower(s.name.value@), schema: none },
        ),
        Statement::ReleaseSavepoint(s) => Ok(
            LogicalPlanView::ReleaseSavepoint { name: text::lower(s.name.value@), schema: none },
        ),
        Statement::PrepareTransaction { gid } => Ok(
            LogicalPlanView::PrepareTransaction { gid: gid@, schema: none },
        ),
        Statement::CommitPrepared { gid } => Ok(
            LogicalPlanView::CommitPrepared { gid: gid@, schema: none },
        ),
        Statement::RollbackPrepared { gid } => Ok(
            LogicalPlanView::RollbackPrepared { gid: gid@, schema: none },
        ),
        _ => Err(PlanErrorView::NotSupported("statement variant"@)),
    }
}

/// Binds a statement against a catalog.
pub fn bind<C: Catalog>(stmt: &Statement, catalog: &C) -> (made: Result<LogicalPlan, PlanError>)
    ensures
        error::plan_outcome(made) == bound_statement(*stmt, catalog.model()),
{
    let mut scope = ScopeStack::new();
    match stmt {
        Statement::Select(s) => {
            let plan = select::bind_select(s, catalog, &mut scope)?;
            Ok(LogicalPlan::Query(plan))
        },
        Statement::Insert(s) => dml::bind_insert(s, catalog, &mut scope),
        Statement::Update(s) => dml::bind_update(s, catalog, &mut scope),
        Statement::Delete(s) => dml::bind_delete(s, catalog, &mut scope),
        Statement::Truncate(s) => dml::bind_truncate(s, catalog),
        Statement::CreateTable(s) => ddl::bind_create_table(s, catalog),
        Statement::CreateIndex(s) => ddl::bind_create_index(s, catalog),
        Statement::DropTable(s) => ddl::bind_drop_table(s, catalog),
        Statement::AlterTable(s) => ddl::bind_alter_table(s, catalog),
        Statement::Begin => Ok(LogicalPlan::Begin { schema: Schema::empty() }),
        Statement::Commit => Ok(LogicalPlan::Commit { schema: Schema::empty() }),
        Statement::Rollback => Ok(LogicalPlan::Rollback { schema: Schema::empty() }),
        Statement::Savepoint(s) => Ok(
            LogicalPlan::Savepoint {
                name: to_lower(s.name.value.as_str()),
                schema: Schema::empty(),
            },
        ),
        Statement::RollbackToSavepoint(s) => Ok(
            LogicalPlan::RollbackToSavepoint {
                name: to_lower(s.name.value.as_str()),
                schema: Schema::empty(),
            },
        ),
        Statement::ReleaseSavepoint(s) => Ok(
            LogicalPlan::ReleaseSavepoint {
                name: to_lower(s.name.value.as_str()),
                schema: Schema::empty(),
            },
        ),
        Statement::PrepareTransaction { gid } => Ok(
            LogicalPlan::PrepareTransaction { gid: gid.clone(), schema: Schema::empty() },
        ),
        Statement::CommitPrepared { gid } => Ok(
            LogicalPlan::CommitPrepared { gid: gid.clone(), schema: Schema::empty() },
        ),
        Statement::RollbackPrepared { gid } => Ok(
            LogicalPlan::RollbackPrepared { gid: gid.clone(), schema: Schema::empty() },
        ),
        _ => Err(PlanError::NotSupported("statement variant")),
    }
}

} // verus!

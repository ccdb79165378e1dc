//! What the definitions of several kinds of objects have in common.
use crate::ast::{ColumnConstraint, Expr, Identifier, Literal, ReferentialAction};
use crate::binder::typing;
use crate::catalog::{Catalog, CatalogView};
use crate::datatype::{DataType, DataTypeView};
use crate::dialect::dml::coerce_assignment_expr_to_type;
use crate::dialect::expr::bind_expr;
use crate::dialect::reading::{Readings, ReadingsView};
use crate::dialect::{dml, expr};
use crate::error::{PlanError, PlanErrorView};
use crate::plan::{LogicalIndexMethod, LogicalReferentialAction};
use crate::query::{ScalarExpr, ScalarExprView};
use crate::schema::{Schema, SchemaView};
use crate::scope::ScopeStack;
use crate::text::{cat2, cat3, cat4, cat7, owned, text_eq, to_lower};
use crate::{debug, error, list, query, schema, text};
use vstd::prelude::*;

verus! {

/// The access method of a name, up to case.
pub open spec fn index_method(name: Seq<char>) -> Result<LogicalIndexMethod, PlanErrorView> {
    let n = text::lower(name);
    if n == "btree"@ {
        Ok(LogicalIndexMethod::Btree)
    } else if n == "hash"@ {
        Ok(LogicalIndexMethod::Hash)
    } else if n == "gin"@ {
        Ok(LogicalIndexMethod::Gin)
    } else if n == "gist"@ {
        Ok(LogicalIndexMethod::Gist)
    } else if n == "brin"@ {
        Ok(LogicalIndexMethod::Brin)
    } else if n == "hnsw"@ {
        Ok(LogicalIndexMethod::Hnsw)
    } else if n == "ivfflat"@ {
        Ok(LogicalIndexMethod::IvfFlat)
    } else {
        Err(
            PlanErrorView::NotSupported(
                "only btree, hash, gin, gist, brin, hnsw, and ivfflat methods are supported"@,
            ),
        )
    }
}

/// Finds the access method of a name.
pub fn bind_index_method(method: &str) -> (made: Result<LogicalIndexMethod, PlanError>)
    ensures
        error::outcome(made) == index_method(method@),
{
    let folded = to_lower(method);
    let n = folded.as_str();
    if text_eq(n, "btree") {
        Ok(LogicalIndexMethod::Btree)
    } else if text_eq(n, "hash") {
        Ok(LogicalIndexMethod::Hash)
    } else if text_eq(n, "gin") {
        Ok(LogicalIndexMethod::Gin)
    } else if text_eq(n, "gist") {
        Ok(LogicalIndexMethod::Gist)
    } else if text_eq(n, "brin") {
        Ok(LogicalIndexMethod::Brin)
    } else if text_eq(n, "hnsw") {
        Ok(LogicalIndexMethod::Hnsw)
    } else if text_eq(n, "ivfflat") {
        Ok(LogicalIndexMethod::IvfFlat)
    } else {
        Err(
            PlanError::NotSupported(
                "only btree, hash, gin, gist, brin, hnsw, and ivfflat methods are supported",
            ),
        )
    }
}

/// What a foreign key does when the referenced row changes.
pub open spec fn referential_action(action: ReferentialAction) -> LogicalReferentialAction {
    match action {
        ReferentialAction::NoAction => LogicalReferentialAction::NoAction,
        ReferentialAction::Restrict => LogicalReferentialAction::Restrict,
        ReferentialAction::Cascade => LogicalReferentialAction::Cascade,
        ReferentialAction::SetNull => LogicalReferentialAction::SetNull,
        ReferentialAction::SetDefault => LogicalReferentialAction::SetDefault,
    }
}

/// What a foreign key does when the referenced row changes.
pub fn bind_referential_action(action: ReferentialAction) -> (made: LogicalReferentialAction)
    ensures
        made == referential_action(action),
{
    match action {
        ReferentialAction::NoAction => LogicalReferentialAction::NoAction,
        ReferentialAction::Restrict => LogicalReferentialAction::Restrict,
        ReferentialAction::Cascade => LogicalReferentialAction::Cascade,
        ReferentialAction::SetNull => LogicalReferentialAction::SetNull,
        ReferentialAction::SetDefault => LogicalReferentialAction::SetDefault,
    }
}

/// A stated name in lower case, or another name where none is stated.
pub open spec fn name_or(name: Option<Identifier>, fallback: Seq<char>) -> Seq<char> {
    match name {
        Some(n) => text::lower(n.value@),
        None => fallback,
    }
}

/// A stated name in lower case, or another name where none is stated.
pub fn named_or(name: &Option<Identifier>, fallback: String) -> (out: String)
    ensures
        out@ == name_or(*name, fallback@),
{
    match name {
        Some(n) => to_lower(n.value.as_str()),
        None => fallback,
    }
}

/// The first `n` names, each with an underscore before it.
pub open spec fn underscored(names: Seq<Seq<char>>, n: int) -> Seq<char>
    decreases n,
{
    if n <= 0 || n > names.len() {
        Seq::empty()
    } else {
        underscored(names, n - 1) + "_"@ + names[n - 1]
    }
}

/// The name of a unique constraint that states none.
pub open spec fn default_unique_name(
    table: Seq<char>,
    columns: Seq<Seq<char>>,
    primary_key: bool,
) -> Seq<
    char,
> {
    if primary_key {
        table + "_pkey"@
    } else {
        table + underscored(columns, columns.len() as int) + "_key"@
    }
}

/// Makes the name of a unique constraint that states none.
pub fn unique_name(table: &str, columns: &Vec<String>, primary_key: bool) -> (out: String)
    ensures
        out@ == default_unique_name(table@, list::strings_view(columns@), primary_key),
{
    if primary_key {
        return cat2(table, "_pkey");
    }
    let mut tail = String::new();
    let mut i: usize = 0;
    while i < columns.len()
        invariant
            i <= columns.len(),
            tail@ == underscored(list::strings_view(columns@), i as int),
        decreases columns.len() - i,
    {
        tail = cat3(tail.as_str(), "_", columns[i].as_str());
        i = i + 1;
    }
    cat3(table, tail.as_str(), "_key")
}

/// Whether an expression is one of the given kinds throughout: it refers to no
/// parameter, no enclosing query and no subquery, and to a column only where
/// columns are allowed.
pub open spec fn self_contained(e: ScalarExprView, columns: bool) -> bool
    decreases e, 0int,
{
    match e {
        ScalarExprView::Literal { .. } => true,
        ScalarExprView::Column { .. } => columns,
        ScalarExprView::Unary { expr, .. } => self_contained(*expr, columns),
        ScalarExprView::IsNull { expr, .. } => self_contained(*expr, columns),
        ScalarExprView::Binary { left, right, .. } => self_contained(*left, columns)
            && self_contained(*right, columns),
        ScalarExprView::FunctionCall { args, .. } => all_self_contained(
            args,
            args.len() as int,
            columns,
        ),
        _ => false,
    }
}

/// Whether the first `n` expressions are self-contained.
pub open spec fn all_self_contained(s: Seq<ScalarExprView>, n: int, columns: bool) -> bool
    decreases s, n,
{
    if n <= 0 || n > s.len() {
        true
    } else {
        self_contained(s[n - 1], columns) && all_self_contained(s, n - 1, columns)
    }
}

fn is_self_contained(e: &ScalarExpr, columns: bool) -> (yes: bool)
    ensures
        yes == self_contained(e@, columns),
    decreases e, 0int,
{
    match e {
        ScalarExpr::Literal { .. } => true,
        ScalarExpr::Column { .. } => columns,
        ScalarExpr::Unary { expr, .. } => is_self_contained(expr, columns),
        ScalarExpr::IsNull { expr, .. } => is_self_contained(expr, columns),
        ScalarExpr::Binary { left, right, .. } => is_self_contained(left, columns)
            && is_self_contained(right, columns),
        ScalarExpr::FunctionCall { args, .. } => are_self_contained(args, columns),
        _ => false,
    }
}

fn are_self_contained(list: &Vec<ScalarExpr>, columns: bool) -> (yes: bool)
    ensures
        yes == all_self_contained(query::scalars_view(list@), list@.len() as int, columns),
    decreases list, 1int,
{
    let mut all = true;
    let mut i: usize = 0;
    while i < list.len()
        invariant
            i <= list.len(),
            all == all_self_contained(query::scalars_view(list@), i as int, columns),
        decreases list.len() - i,
    {
        let here = is_self_contained(&list[i], columns);
        assert(query::scalars_view(list@)[i as int] == list@[i as int]@);
        all = all && here;
        i = i + 1;
    }
    all
}

/// Whether an expression can be the default of a column: it refers to nothing
/// outside of itself.
pub open spec fn default_safe(e: ScalarExprView) -> bool {
    self_contained(e, false)
}

/// Tells whether an expression can be the default of a column.
pub fn is_default_safe(expr: &ScalarExpr) -> (yes: bool)
    ensures
        yes == default_safe(expr@),
{
    is_self_contained(expr, false)
}

/// Whether an expression can compute a stored column: it refers to columns of
/// its own row at most.
pub open spec fn generated_safe(e: ScalarExprView) -> bool {
    self_contained(e, true)
}

/// Tells whether an expression can compute a stored column.
pub fn is_generated_stored_safe(expr: &ScalarExpr) -> (yes: bool)
    ensures
        yes == generated_safe(expr@),
{
    is_self_contained(expr, true)
}

/// What can be a default can also compute a stored column.
pub proof fn defaults_can_be_stored(e: ScalarExprView)
    ensures
        default_safe(e) ==> generated_safe(e),
    decreases e, 0int,
{
    match e {
        ScalarExprView::Unary { expr, .. } => defaults_can_be_stored(*expr),
        ScalarExprView::IsNull { expr, .. } => defaults_can_be_stored(*expr),
        ScalarExprView::Binary { left, right, .. } => {
            defaults_can_be_stored(*left);
            defaults_can_be_stored(*right);
        },
        ScalarExprView::FunctionCall { args, .. } => lemma_all_storable(args, args.len() as int),
        _ => {},
    }
}

proof fn lemma_all_storable(s: Seq<ScalarExprView>, n: int)
    requires
        n <= s.len(),
    ensures
        all_self_contained(s, n, false) ==> all_self_contained(s, n, true),
    decreases s, n,
{
    if n > 0 {
        defaults_can_be_stored(s[n - 1]);
        lemma_all_storable(s, n - 1);
    }
}

/// Coerces a default to the type of its column.
pub fn coerce_default_expr_to_type(e: ScalarExpr, target: &DataType, readings: &Readings) -> (made:
    ScalarExpr)
    ensures
        made@ == dml::assigned_value(e@, target@, readings@),
{
    coerce_assignment_expr_to_type(e, target, readings)
}

/// Whether an expression refers, outside of its subqueries, to one of the marked
/// columns.
pub open spec fn refers_to_marked(e: ScalarExprView, marked: Seq<bool>) -> bool
    decreases e, 0int,
{
    match e {
        ScalarExprView::Column { index, .. } => index < marked.len() && marked[index as int],
        ScalarExprView::Unary { expr, .. } => refers_to_marked(*expr, marked),
        ScalarExprView::IsNull { expr, .. } => refers_to_marked(*expr, marked),
        ScalarExprView::Binary { left, right, .. } => refers_to_marked(*left, marked)
            || refers_to_marked(*right, marked),
        ScalarExprView::FunctionCall { args, .. } => any_refers_to_marked(
            args,
            args.len() as int,
            marked,
        ),
        _ => false,
    }
}

/// Whether one of the first `n` expressions refers to one of the marked columns.
pub open spec fn any_refers_to_marked(s: Seq<ScalarExprView>, n: int, marked: Seq<bool>) -> bool
    decreases s, n,
{
    if n <= 0 || n > s.len() {
        false
    } else {
        refers_to_marked(s[n - 1], marked) || any_refers_to_marked(s, n - 1, marked)
    }
}

/// Tells whether an expression refers to a column that is itself computed.
pub fn expr_references_generated_column(
    expr: &ScalarExpr,
    generated_columns: &Vec<bool>,
) -> (yes: bool)
    ensures
        yes == refers_to_marked(expr@, generated_columns@),
    decreases expr, 0int,
{
    match expr {
        ScalarExpr::Column { index, .. } => *index < generated_columns.len()
            && generated_columns[*index],
        ScalarExpr::Unary { expr, .. } => expr_references_generated_column(
            expr,
            generated_columns,
        ),
        ScalarExpr::IsNull { expr, .. } => expr_references_generated_column(
            expr,
            generated_columns,
        ),
        ScalarExpr::Binary { left, right, .. } => expr_references_generated_column(
            left,
            generated_columns,
        ) || expr_references_generated_column(right, generated_columns),
        ScalarExpr::FunctionCall { args, .. } => any_references(args, generated_columns),
        _ => false,
    }
}

fn any_references(list: &Vec<ScalarExpr>, generated_columns: &Vec<bool>) -> (yes: bool)
    ensures
        yes == any_refers_to_marked(
            query::scalars_view(list@),
            list@.len() as int,
            generated_columns@,
        ),
    decreases list, 1int,
{
    let mut any = false;
    let mut i: usize = 0;
    while i < list.len()
        invariant
            i <= list.len(),
            any == any_refers_to_marked(
                query::scalars_view(list@),
                i as int,
                generated_columns@,
            ),
        decreases list.len() - i,
    {
        let here = expr_references_generated_column(&list[i], generated_columns);
        assert(query::scalars_view(list@)[i as int] == list@[i as int]@);
        any = any || here;
        i = i + 1;
    }
    any
}

/// Whether a constraint keeps nulls out of its column.
pub open spec fn refuses_nulls(c: ColumnConstraint) -> bool {
    c is NotNull || c is PrimaryKey
}

/// Whether a column with the given constraints takes nulls: unless one of them
/// is `NOT NULL` or a primary key.
pub open spec fn takes_nulls(constraints: Seq<ColumnConstraint>) -> bool {
    forall|i: int| 0 <= i < constraints.len() ==> !refuses_nulls(#[trigger] constraints[i])
}

/// Tells whether a column with the given constraints takes nulls.
pub fn resolve_column_nullability(constraints: &Vec<ColumnConstraint>) -> (nullable: bool)
    ensures
        nullable == takes_nulls(constraints@),
{
    let mut i: usize = 0;
    while i < constraints.len()
        invariant
            i <= constraints.len(),
            forall|j: int| 0 <= j < i ==> !refuses_nulls(#[trigger] constraints@[j]),
        decreases constraints.len() - i,
    {
        if matches!(
            constraints[i],
            ColumnConstraint::NotNull | ColumnConstraint::PrimaryKey { .. }
        ) {
            assert(refuses_nulls(constraints@[i as int]));
            return false;
        }
        i = i + 1;
    }
    true
}

/// The default among the constraints from the `i`-th on. There is at most one.
pub open spec fn default_from(
    constraints: Seq<ColumnConstraint>,
    i: int,
    found: Option<Expr>,
) -> Result<
    Option<Expr>,
    PlanErrorView,
>
    decreases constraints.len() - i,
{
    if i < 0 || i >= constraints.len() {
        Ok(found)
    } else {
        match constraints[i] {
            ColumnConstraint::Default { expr } => if found is Some {
                Err(
                    PlanErrorView::NotSupported(
                        "CREATE TABLE: multiple DEFAULT clauses on one column"@,
                    ),
                )
            } else {
                default_from(constraints, i + 1, Some(expr))
            },
            _ => default_from(constraints, i + 1, found),
        }
    }
}

/// An optional expression as written.
pub open spec fn written(e: Option<&Expr>) -> Option<Expr> {
    match e {
        Some(x) => Some(*x),
        None => None,
    }
}

/// Finds the default among the constraints of a column.
pub fn column_default(
    constraints: &Vec<ColumnConstraint>,
) -> (made: Result<Option<&Expr>, PlanError>)
    ensures
        (match made {
            Ok(e) => Ok(written(e)),
            Err(err) => Err(err@),
        }) == default_from(constraints@, 0, None),
{
    let mut found: Option<&Expr> = None;
    let mut i: usize = 0;
    while i < constraints.len()
        invariant
            i <= constraints.len(),
            default_from(constraints@, i as int, written(found)) == default_from(
                constraints@,
                0,
                None,
            ),
        decreases constraints.len() - i,
    {
        match &constraints[i] {
            ColumnConstraint::Default { expr } => {
                if found.is_some() {
                    return Err(
                        PlanError::NotSupported(
                            "CREATE TABLE: multiple DEFAULT clauses on one column",
                        ),
                    );
                }
                found = Some(expr);
            },
            _ => {},
        }
        i = i + 1;
    }
    Ok(found)
}

/// The value of an index option as text.
pub open spec fn option_text(e: Expr) -> Result<Seq<char>, PlanErrorView> {
    match e {
        Expr::Literal(lit) => match lit {
            Literal::Integer { text } => Ok(text@),
            Literal::Float { text, .. } => Ok(text@),
            Literal::Text { value } => Ok(value@),
            Literal::Typed { value, .. } => Ok(value@),
            Literal::Bool { value } => Ok(
                if value {
                    "true"@
                } else {
                    "false"@
                },
            ),
            Literal::Null => Err(PlanErrorView::NotSupported("CREATE INDEX WITH option value"@)),
        },
        Expr::Column { name } => if name.parts@.len() == 1 {
            Ok(name.parts@[0].value@)
        } else {
            Err(PlanErrorView::NotSupported("CREATE INDEX WITH option value"@))
        },
        _ => Err(PlanErrorView::NotSupported("CREATE INDEX WITH option value"@)),
    }
}

/// A text with its outcome as models.
pub open spec fn text_outcome(r: Result<String, PlanError>) -> Result<Seq<char>, PlanErrorView> {
    match r {
        Ok(s) => Ok(s@),
        Err(e) => Err(e@),
    }
}

/// Writes the value of an index option as text.
pub fn index_option_value_to_string(expr: &Expr) -> (made: Result<String, PlanError>)
    ensures
        text_outcome(made) == option_text(*expr),
{
    match expr {
        Expr::Literal(lit) => match lit {
            Literal::Integer { text } => Ok(text.clone()),
            Literal::Float { text, .. } => Ok(text.clone()),
            Literal::Text { value } => Ok(value.clone()),
            Literal::Typed { value, .. } => Ok(value.clone()),
            Literal::Bool { value } => Ok(
                if *value {
                    owned("true")
                } else {
                    owned("false")
                },
            ),
            Literal::Null => Err(PlanError::NotSupported("CREATE INDEX WITH option value")),
        },
        Expr::Column { name } => if name.parts.len() == 1 {
            Ok(name.parts[0].value.clone())
        } else {
            Err(PlanError::NotSupported("CREATE INDEX WITH option value"))
        },
        _ => Err(PlanError::NotSupported("CREATE INDEX WITH option value")),
    }
}

/// A condition bound against a row. It is a truth value.
pub open spec fn bound_condition(
    e: Expr,
    row: SchemaView,
    cat: CatalogView,
    r: ReadingsView,
    subject: Seq<char>,
) -> Result<ScalarExprView, PlanErrorView> {
    match expr::bound_value(e, row, cat, Seq::empty(), Seq::empty(), r) {
        Err(e) => Err(e),
        Ok(bound) => if typing::truth_type(query::scalar_type(bound)) {
            Ok(bound)
        } else {
            Err(
                PlanErrorView::TypeMismatch(
                    subject + " has type "@ + debug::variant_text(query::scalar_type(bound))
                        + ", expected Bool"@,
                ),
            )
        },
    }
}

/// Binds a condition against a row.
pub fn bind_condition<C: Catalog>(
    e: &Expr,
    row: &Schema,
    catalog: &C,
    readings: &Readings,
    subject: &str,
) -> (made: Result<ScalarExpr, PlanError>)
    ensures
        error::scalar_outcome(made) == bound_condition(
            *e,
            row@,
            catalog.model(),
            readings@,
            subject@,
        ),
{
    let mut scope = ScopeStack::new();
    let bound = bind_expr(e, row, catalog, &mut scope, readings)?;
    let ty = bound.data_type();
    match ty {
        DataType::Bool => Ok(bound),
        DataType::Null => Ok(bound),
        _ => Err(
            PlanError::TypeMismatch(
                cat4(subject, " has type ", ty.debug_text().as_str(), ", expected Bool"),
            ),
        ),
    }
}

/// Whether the `i`-th name is one of those before it.
pub open spec fn occurs_before(names: Seq<Seq<char>>, i: int) -> bool {
    exists|j: int| 0 <= j < i && #[trigger] names[j] == names[i]
}

/// Tells whether the `i`-th name is one of those before it.
pub fn name_occurs_before(names: &Vec<String>, i: usize) -> (yes: bool)
    requires
        i < names.len(),
    ensures
        yes == occurs_before(list::strings_view(names@), i as int),
{
    let ghost s = list::strings_view(names@);
    let mut j: usize = 0;
    while j < i
        invariant
            j <= i,
            i < names.len(),
            s == list::strings_view(names@),
            forall|k: int| 0 <= k < j ==> #[trigger] s[k] != s[i as int],
        decreases i - j,
    {
        if text_eq(names[j].as_str(), names[i].as_str()) {
            assert(s[j as int] == s[i as int]);
            return true;
        }
        j = j + 1;
    }
    false
}

/// Names in lower case.
pub open spec fn lower_names(s: Seq<Identifier>) -> Seq<Seq<char>> {
    Seq::new(s.len(), |i: int| text::lower(s[i].value@))
}

/// Turns names to lower case.
pub fn all_lower_names(s: &Vec<Identifier>) -> (out: Vec<String>)
    ensures
        list::strings_view(out@) == lower_names(s@),
{
    let mut out: Vec<String> = Vec::new();
    let mut i: usize = 0;
    while i < s.len()
        invariant
            i <= s.len(),
            out.len() == i,
            forall|j: int| 0 <= j < i ==> (#[trigger] out@[j])@ == lower_names(s@)[j],
        decreases s.len() - i,
    {
        out.push(to_lower(s[i].value.as_str()));
        i = i + 1;
    }
    assert(list::strings_view(out@) =~= lower_names(s@));
    out
}

/// A value made to fit a column: of its type, or null.
pub open spec fn fitted_value(
    bound: ScalarExprView,
    name: Seq<char>,
    target: DataTypeView,
    before: Seq<char>,
    r: ReadingsView,
) -> Result<ScalarExprView, PlanErrorView> {
    let made = dml::assigned_value(bound, target, r);
    let actual = query::scalar_type(made);
    if actual == target || actual is Null {
        Ok(made)
    } else {
        Err(
            PlanErrorView::TypeMismatch(
                before + " for column '"@ + name + "' has type "@ + debug::variant_text(actual)
                    + ", expected "@ + debug::variant_text(target),
            ),
        )
    }
}

/// Makes a value fit a column.
pub fn fit_value(
    bound: ScalarExpr,
    name: &str,
    target: &DataType,
    before: &str,
    readings: &Readings,
) -> (made: Result<ScalarExpr, PlanError>)
    ensures
        error::scalar_outcome(made) == fitted_value(bound@, name@, target@, before@, readings@),
{
    let value = coerce_default_expr_to_type(bound, target, readings);
    let actual = value.data_type();
    let null = matches!(actual, DataType::Null);
    if actual.same(target) || null {
        return Ok(value);
    }
    Err(
        PlanError::TypeMismatch(
            cat7(
                before,
                " for column '",
                name,
                "' has type ",
                actual.debug_text().as_str(),
                ", expected ",
                target.debug_text().as_str(),
            ),
        ),
    )
}

/// The default of a column, bound and made to fit.
pub open spec fn default_value(
    e: Expr,
    name: Seq<char>,
    target: DataTypeView,
    cat: CatalogView,
    r: ReadingsView,
    refused: Seq<char>,
) -> Result<ScalarExprView, PlanErrorView> {
    match expr::bound_value(e, schema::empty_schema(), cat, Seq::empty(), Seq::empty(), r) {
        Err(e) => Err(e),
        Ok(bound) => if !default_safe(bound) {
            Err(PlanErrorView::NotSupported(refused))
        } else {
            fitted_value(bound, name, target, "DEFAULT"@, r)
        },
    }
}

/// Binds the default of a column.
pub fn bind_default_value<C: Catalog>(
    e: &Expr,
    name: &str,
    target: &DataType,
    catalog: &C,
    readings: &Readings,
    refused: &'static str,
) -> (made: Result<ScalarExpr, PlanError>)
    ensures
        error::scalar_outcome(made) == default_value(
            *e,
            name@,
            target@,
            catalog.model(),
            readings@,
            refused@,
        ),
{
    let mut scope = ScopeStack::new();
    let empty = Schema::empty();
    let bound = bind_expr(e, &empty, catalog, &mut scope, readings)?;
    if !is_default_safe(&bound) {
        return Err(PlanError::NotSupported(refused));
    }
    fit_value(bound, name, target, "DEFAULT", readings)
}

/// An expression without the parentheses around it.
pub open spec fn unparened(e: Expr) -> Expr
    decreases e,
{
    match e {
        Expr::Paren { expr } => unparened(*expr),
        _ => e,
    }
}

/// Takes the parentheses around an expression away.
pub fn unparen_expr(expr: &Expr) -> (inner: &Expr)
    ensures
        *inner == unparened(*expr),
    decreases expr,
{
    match expr {
        Expr::Paren { expr: inner } => unparen_expr(inner),
        _ => expr,
    }
}

/// The positions of the named columns from the `i`-th on.
pub open spec fn positions_from(
    list: Seq<Identifier>,
    i: int,
    row: SchemaView,
    acc: Seq<usize>,
) -> Result<
    Seq<usize>,
    PlanErrorView,
>
    decreases list.len() - i,
{
    if i < 0 || i >= list.len() {
        Ok(acc)
    } else {
        match schema::find_field(row, list[i].value@) {
            None => Err(PlanErrorView::ColumnNotFound(list[i].value@)),
            Some(k) => positions_from(list, i + 1, row, acc.push(k as usize)),
        }
    }
}

/// Whether every position is one of a column.
pub open spec fn within_row(columns: Seq<usize>, row: SchemaView) -> bool {
    forall|i: int| 0 <= i < columns.len() ==> (#[trigger] columns[i]) < row.fields.len()
}

/// Finds the positions of the named columns.
pub fn find_positions(list: &Vec<Identifier>, row: &Schema) -> (made: Result<Vec<usize>, PlanError>)
    ensures
        error::list_outcome(made) == positions_from(list@, 0, row@, Seq::empty()),
        made matches Ok(columns) ==> within_row(columns@, row@),
{
    let mut columns: Vec<usize> = Vec::new();
    let mut i: usize = 0;
    while i < list.len()
        invariant
            i <= list.len(),
            within_row(columns@, row@),
            positions_from(list@, i as int, row@, columns@) == positions_from(
                list@,
                0,
                row@,
                Seq::empty(),
            ),
        decreases list.len() - i,
    {
        match row.find(list[i].value.as_str()) {
            None => {
                return Err(PlanError::ColumnNotFound(list[i].value.clone()));
            },
            Some(k) => {
                columns.push(k);
            },
        }
        i = i + 1;
    }
    Ok(columns)
}

/// As many positions are found as columns are named.
pub proof fn lemma_positions_count(list: Seq<Identifier>, i: int, row: SchemaView, acc: Seq<usize>)
    requires
        0 <= i <= list.len(),
    ensures
        positions_from(list, i, row, acc) matches Ok(columns) ==> columns.len() == acc.len()
            + list.len() - i,
    decreases list.len() - i,
{
    if i < list.len() {
        match schema::find_field(row, list[i].value@) {
            Some(k) => lemma_positions_count(list, i + 1, row, acc.push(k as usize)),
            None => {},
        }
    }
}

} // verus!

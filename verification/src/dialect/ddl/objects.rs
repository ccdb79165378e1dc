//! What plans keep of the statements on sequences, schemas, roles and comments.
use crate::ast::{
    AlterRoleStmt, AlterSequenceStmt, CommentStmt, CommentTarget, CreateRoleStmt, CreateSchemaStmt,
    CreateSequenceStmt, DropRoleStmt, DropSchemaStmt, DropSequenceStmt, ObjectName, RoleOption,
    RoleStmtKind, SequenceOption,
};
use crate::binder::{names, sources};
use crate::catalog::CatalogView;
use crate::dialect::ddl::{rules, sequence};
use crate::plan::{
    LogicalCommentTargetView, LogicalPlanView, LogicalRoleKind, LogicalRoleOptionsView,
    LogicalSequenceChange, LogicalSequenceOptions,
};
use crate::{schema, text};
use vstd::prelude::*;

verus! {

/// Whether two options of a sequence are of one kind.
pub open spec fn same_kind(a: SequenceOption, b: SequenceOption) -> bool {
    match (a, b) {
        (SequenceOption::Start(_), SequenceOption::Start(_)) => true,
        (SequenceOption::Restart(_), SequenceOption::Restart(_)) => true,
        (SequenceOption::Increment(_), SequenceOption::Increment(_)) => true,
        (SequenceOption::MinValue(_), SequenceOption::MinValue(_)) => true,
        (SequenceOption::MaxValue(_), SequenceOption::MaxValue(_)) => true,
        (SequenceOption::Cache(_), SequenceOption::Cache(_)) => true,
        (SequenceOption::Cycle(_), SequenceOption::Cycle(_)) => true,
        _ => false,
    }
}

/// Whether a sequence does what an option asks.
pub open spec fn has_option(o: LogicalSequenceOptions, option: SequenceOption) -> bool {
    match option {
        SequenceOption::Start(n) => o.start == n,
        SequenceOption::Restart(_) => false,
        SequenceOption::Increment(n) => o.increment == n,
        SequenceOption::MinValue(n) => o.min == n,
        SequenceOption::MaxValue(n) => o.max == n,
        SequenceOption::Cache(n) => o.cache as int == n as int,
        SequenceOption::Cycle(b) => o.cycle == b,
    }
}

/// Whether a sequence does what it does where it states no option of a kind: it
/// counts by one, keeps one value, knows no bounds and does not start over. It
/// starts at its low end when it ascends, at its high end when it descends.
pub open spec fn is_usual(o: LogicalSequenceOptions, kind: SequenceOption) -> bool {
    match kind {
        SequenceOption::Start(_) => if o.increment > 0 {
            &&& o.min is None ==> o.start == 1
            &&& o.min matches Some(n) ==> o.start == n
        } else {
            &&& o.max is None ==> o.start == -1
            &&& o.max matches Some(n) ==> o.start == n
        },
        SequenceOption::Restart(_) => true,
        SequenceOption::Increment(_) => o.increment == 1,
        SequenceOption::MinValue(_) => o.min is None,
        SequenceOption::MaxValue(_) => o.max is None,
        SequenceOption::Cache(_) => o.cache == 1,
        SequenceOption::Cycle(_) => !o.cycle,
    }
}

/// Whether what is read of options so far is kept where no later one is of a kind.
spec fn keeps(
    kind: SequenceOption,
    acc: LogicalSequenceOptions,
    start: Option<i64>,
    o: LogicalSequenceOptions,
    from: Option<i64>,
) -> bool {
    match kind {
        SequenceOption::Start(_) => from == start,
        SequenceOption::Restart(_) => true,
        SequenceOption::Increment(_) => o.increment == acc.increment,
        SequenceOption::MinValue(_) => o.min == acc.min,
        SequenceOption::MaxValue(_) => o.max == acc.max,
        SequenceOption::Cache(_) => o.cache == acc.cache,
        SequenceOption::Cycle(_) => o.cycle == acc.cycle,
    }
}

proof fn unstated_options_are_kept(
    options: Seq<SequenceOption>,
    i: int,
    acc: LogicalSequenceOptions,
    start: Option<i64>,
    kind: SequenceOption,
)
    requires
        0 <= i <= options.len(),
        forall|j: int| i <= j < options.len() ==> !#[trigger] same_kind(options[j], kind),
    ensures
        sequence::stated_options(options, i, acc, start) matches Ok((o, from)) ==> keeps(
            kind,
            acc,
            start,
            o,
            from,
        ),
    decreases options.len() - i,
{
    if i < options.len() {
        assert(!same_kind(options[i], kind));
        let (next, then_from) = match options[i] {
            SequenceOption::Start(n) => (acc, Some(n)),
            SequenceOption::Restart(_) => (acc, start),
            SequenceOption::Increment(n) => (
                LogicalSequenceOptions { increment: n, ..acc },
                start,
            ),
            SequenceOption::MinValue(n) => (LogicalSequenceOptions { min: n, ..acc }, start),
            SequenceOption::MaxValue(n) => (LogicalSequenceOptions { max: n, ..acc }, start),
            SequenceOption::Cache(n) => (
                LogicalSequenceOptions { cache: n as u32, ..acc },
                start,
            ),
            SequenceOption::Cycle(b) => (LogicalSequenceOptions { cycle: b, ..acc }, start),
        };
        unstated_options_are_kept(options, i + 1, next, then_from, kind);
    }
}

proof fn last_options_count(
    options: Seq<SequenceOption>,
    i: int,
    acc: LogicalSequenceOptions,
    start: Option<i64>,
    k: int,
)
    requires
        0 <= i <= k < options.len(),
        forall|j: int| k < j < options.len() ==> !#[trigger] same_kind(options[j], options[k]),
    ensures
        sequence::stated_options(options, i, acc, start) matches Ok((o, from)) ==> {
            &&& !(options[k] is Restart)
            &&& options[k] is Start ==> from == Some(options[k]->Start_0)
            &&& !(options[k] is Start) ==> has_option(o, options[k])
        },
    decreases options.len() - i,
{
    let (next, then_from) = match options[i] {
        SequenceOption::Start(n) => (acc, Some(n)),
        SequenceOption::Restart(_) => (acc, start),
        SequenceOption::Increment(n) => (LogicalSequenceOptions { increment: n, ..acc }, start),
        SequenceOption::MinValue(n) => (LogicalSequenceOptions { min: n, ..acc }, start),
        SequenceOption::MaxValue(n) => (LogicalSequenceOptions { max: n, ..acc }, start),
        SequenceOption::Cache(n) => (LogicalSequenceOptions { cache: n as u32, ..acc }, start),
        SequenceOption::Cycle(b) => (LogicalSequenceOptions { cycle: b, ..acc }, start),
    };
    if i == k {
        unstated_options_are_kept(options, i + 1, next, then_from, options[k]);
    } else {
        last_options_count(options, i + 1, next, then_from, k);
    }
}

/// A sequence does what the last of its options of a kind asks.
pub proof fn last_stated_options_count(options: Seq<SequenceOption>, k: int)
    requires
        0 <= k < options.len(),
        forall|j: int| k < j < options.len() ==> !#[trigger] same_kind(options[j], options[k]),
    ensures
        sequence::sequence_options(options) matches Ok(o) ==> has_option(o, options[k]),
{
    last_options_count(options, 0, sequence::plain_sequence(), None, k);
}

/// A sequence that states no option of a kind does there what sequences usually do.
pub proof fn unstated_options_are_usual(options: Seq<SequenceOption>, kind: SequenceOption)
    requires
        forall|j: int| 0 <= j < options.len() ==> !#[trigger] same_kind(options[j], kind),
    ensures
        sequence::sequence_options(options) matches Ok(o) ==> is_usual(o, kind),
{
    unstated_options_are_kept(options, 0, sequence::plain_sequence(), None, kind);
}

/// An accepted sequence moves, keeps a value, has room and starts within its bounds.
pub proof fn accepted_sequences_have_room(options: Seq<SequenceOption>)
    ensures
        sequence::sequence_options(options) matches Ok(o) ==> {
            &&& o.increment != 0 && o.cache > 0
            &&& o.min matches Some(n) ==> n <= o.start
            &&& o.max matches Some(n) ==> o.start <= n
            &&& o.min is None && o.increment > 0 ==> 1 <= o.start
            &&& o.max is None && o.increment < 0 ==> o.start <= -1
            &&& o.min matches Some(low) ==> (o.max matches Some(high) ==> low < high)
        },
{
}

/// A `CREATE SEQUENCE` makes the sequence of its name with the stated options, and
/// keeps `IF NOT EXISTS`.
pub proof fn created_sequences_are_those_stated(s: CreateSequenceStmt)
    ensures
        sequence::bound_create_sequence(s) matches Ok(p) ==> {
            &&& p matches LogicalPlanView::CreateSequence {
                sequence_name,
                namespace,
                options,
                if_not_exists,
                ..
            }
            &&& sequence_name == text::lower(names::last_part(s.name))
            &&& in_namespace(s.name, namespace)
            &&& sequence::sequence_options(s.options@) == Ok::<
                LogicalSequenceOptions,
                crate::error::PlanErrorView,
            >(options)
            &&& if_not_exists == s.if_not_exists
        },
{
}

/// Whether a namespace is the one that a name states, or else `public`.
pub open spec fn in_namespace(name: ObjectName, namespace: Seq<char>) -> bool {
    let n = name.parts@.len() as int;
    &&& n >= 2 ==> namespace == text::lower(name.parts@[n - 2].value@)
    &&& n < 2 ==> namespace == "public"@
}

/// Whether a namespace is the one that a name states, where it states one.
pub open spec fn states_namespace(name: ObjectName, namespace: Option<Seq<char>>) -> bool {
    let n = name.parts@.len() as int;
    &&& n >= 2 ==> namespace == Some(text::lower(name.parts@[n - 2].value@))
    &&& n < 2 ==> namespace is None
}

/// Whether a change of a sequence does what an option asks.
pub open spec fn has_change(c: LogicalSequenceChange, option: SequenceOption) -> bool {
    match option {
        SequenceOption::Start(n) => c.start == Some(n),
        SequenceOption::Restart(n) => c.restart == Some(n),
        SequenceOption::Increment(n) => c.increment == Some(n),
        SequenceOption::MinValue(n) => c.min == Some(n),
        SequenceOption::MaxValue(n) => c.max == Some(n),
        SequenceOption::Cache(n) => c.cache matches Some(m) && m as int == n as int,
        SequenceOption::Cycle(b) => c.cycle == Some(b),
    }
}

/// Whether two changes of a sequence do the same about a kind of option.
pub open spec fn same_change(
    c: LogicalSequenceChange,
    d: LogicalSequenceChange,
    kind: SequenceOption,
) -> bool {
    match kind {
        SequenceOption::Start(_) => c.start == d.start,
        SequenceOption::Restart(_) => c.restart == d.restart,
        SequenceOption::Increment(_) => c.increment == d.increment,
        SequenceOption::MinValue(_) => c.min == d.min,
        SequenceOption::MaxValue(_) => c.max == d.max,
        SequenceOption::Cache(_) => c.cache == d.cache,
        SequenceOption::Cycle(_) => c.cycle == d.cycle,
    }
}

spec fn changed(acc: LogicalSequenceChange, option: SequenceOption) -> LogicalSequenceChange {
    match option {
        SequenceOption::Start(v) => LogicalSequenceChange { start: Some(v), ..acc },
        SequenceOption::Restart(v) => LogicalSequenceChange { restart: Some(v), ..acc },
        SequenceOption::Increment(v) => LogicalSequenceChange { increment: Some(v), ..acc },
        SequenceOption::MinValue(v) => LogicalSequenceChange { min: Some(v), ..acc },
        SequenceOption::MaxValue(v) => LogicalSequenceChange { max: Some(v), ..acc },
        SequenceOption::Cache(v) => LogicalSequenceChange { cache: Some(v as u32), ..acc },
        SequenceOption::Cycle(v) => LogicalSequenceChange { cycle: Some(v), ..acc },
    }
}

/// A change does nothing about a kind of option that it does not state.
pub proof fn unstated_changes_are_kept(
    options: Seq<SequenceOption>,
    i: int,
    acc: LogicalSequenceChange,
    kind: SequenceOption,
)
    requires
        0 <= i <= options.len(),
        forall|j: int| i <= j < options.len() ==> !#[trigger] same_kind(options[j], kind),
    ensures
        sequence::stated_changes(options, i, acc) matches Ok(c) ==> same_change(c, acc, kind),
    decreases options.len() - i,
{
    if i < options.len() {
        assert(!same_kind(options[i], kind));
        unstated_changes_are_kept(options, i + 1, changed(acc, options[i]), kind);
    }
}

/// A change does what the last of its options of a kind asks.
pub proof fn last_stated_changes_count(
    options: Seq<SequenceOption>,
    i: int,
    acc: LogicalSequenceChange,
    k: int,
)
    requires
        0 <= i <= k < options.len(),
        forall|j: int| k < j < options.len() ==> !#[trigger] same_kind(options[j], options[k]),
    ensures
        sequence::stated_changes(options, i, acc) matches Ok(c) ==> has_change(c, options[k]),
    decreases options.len() - i,
{
    if i == k {
        unstated_changes_are_kept(options, i + 1, changed(acc, options[i]), options[k]);
    } else {
        last_stated_changes_count(options, i + 1, changed(acc, options[i]), k);
    }
}

/// An `ALTER SEQUENCE` changes the sequence of its name as stated.
pub proof fn altered_sequences_are_those_stated(s: AlterSequenceStmt)
    ensures
        sequence::bound_alter_sequence(s) matches Ok(p) ==> {
            &&& p matches LogicalPlanView::AlterSequence {
                sequence_name,
                explicit_namespace,
                changes,
                ..
            }
            &&& sequence_name == text::lower(names::last_part(s.name))
            &&& states_namespace(s.name, explicit_namespace)
            &&& sequence::stated_changes(s.options@, 0, sequence::no_change()) == Ok::<
                LogicalSequenceChange,
                crate::error::PlanErrorView,
            >(changes)
            &&& s.options@.len() == 0 ==> {
                &&& changes.start is None && changes.restart is None && changes.increment is None
                &&& changes.min is None && changes.max is None && changes.cache is None
                &&& changes.cycle is None
            }
        },
{
}

/// A `DROP SEQUENCE` drops the sequences that it lists, in order, and keeps its
/// options.
pub proof fn dropped_sequences_are_those_listed(s: DropSequenceStmt)
    ensures
        ({
            let p = sequence::bound_drop_sequence(s);
            &&& p matches LogicalPlanView::DropSequence {
                sequences,
                sequence_namespaces,
                if_exists,
                cascade,
                ..
            }
            &&& sequences.len() == s.names@.len() && sequence_namespaces.len() == s.names@.len()
            &&& forall|k: int|
                0 <= k < sequences.len() ==> (#[trigger] sequences[k]) == text::lower(
                    names::last_part(s.names@[k]),
                )
            &&& forall|k: int|
                0 <= k < sequences.len() ==> states_namespace(
                    s.names@[k],
                    #[trigger] sequence_namespaces[k],
                )
            &&& if_exists == s.if_exists && cascade == s.cascade
        }),
{
}

/// A `CREATE SCHEMA` makes the schema of its name, and keeps `IF NOT EXISTS`.
pub proof fn created_schemas_are_those_stated(s: CreateSchemaStmt)
    ensures
        sequence::created_schema(s) matches LogicalPlanView::CreateSchema {
            schema_name,
            if_not_exists,
            ..
        } && schema_name == text::lower(s.name.value@) && if_not_exists == s.if_not_exists,
{
}

/// A `DROP SCHEMA` drops the schemas that it lists, in order, and keeps its options.
pub proof fn dropped_schemas_are_those_listed(s: DropSchemaStmt)
    ensures
        sequence::dropped_schemas(s) matches LogicalPlanView::DropSchema {
            schemas,
            if_exists,
            cascade,
            ..
        } && rules::lowered(s.names@, schemas) && if_exists == s.if_exists && cascade == s.cascade,
{
}

/// Whether a role or a user is what is stated.
pub open spec fn same_role(a: RoleStmtKind, b: LogicalRoleKind) -> bool {
    match (a, b) {
        (RoleStmtKind::Role, LogicalRoleKind::Role) => true,
        (RoleStmtKind::User, LogicalRoleKind::User) => true,
        _ => false,
    }
}

/// A `CREATE ROLE` makes the role or the user of its name with its options, and keeps
/// `IF NOT EXISTS`.
pub proof fn created_roles_are_those_stated(s: CreateRoleStmt)
    ensures
        sequence::created_role(s) matches LogicalPlanView::CreateRole {
            kind,
            role_name,
            role_options,
            if_not_exists,
            ..
        } && same_role(s.kind, kind) && role_name == text::lower(s.name.value@) && role_options
            == sequence::role_options(s.options@, s.options@.len() as int) && if_not_exists
            == s.if_not_exists,
{
}

/// An `ALTER ROLE` changes the options of the role or the user of its name.
pub proof fn altered_roles_are_those_stated(s: AlterRoleStmt)
    ensures
        sequence::altered_role(s) matches LogicalPlanView::AlterRole {
            kind,
            role_name,
            role_options,
            ..
        } && same_role(s.kind, kind) && role_name == text::lower(s.name.value@) && role_options
            == sequence::role_options(s.options@, s.options@.len() as int),
{
}

/// A `DROP ROLE` drops the roles or the users that it lists, in order, and keeps its
/// options.
pub proof fn dropped_roles_are_those_listed(s: DropRoleStmt)
    ensures
        sequence::dropped_roles(s) matches LogicalPlanView::DropRole {
            kind,
            roles,
            if_exists,
            cascade,
            ..
        } && same_role(s.kind, kind) && rules::lowered(s.names@, roles) && if_exists == s.if_exists
            && cascade == s.cascade,
{
}

/// Whether two options of a role are of one kind.
pub open spec fn same_role_kind(a: RoleOption, b: RoleOption) -> bool {
    match (a, b) {
        (RoleOption::Superuser(_), RoleOption::Superuser(_)) => true,
        (RoleOption::Inherit(_), RoleOption::Inherit(_)) => true,
        (RoleOption::CreateRole(_), RoleOption::CreateRole(_)) => true,
        (RoleOption::CreateDb(_), RoleOption::CreateDb(_)) => true,
        (RoleOption::Login(_), RoleOption::Login(_)) => true,
        (RoleOption::Replication(_), RoleOption::Replication(_)) => true,
        (RoleOption::BypassRls(_), RoleOption::BypassRls(_)) => true,
        (RoleOption::ConnectionLimit(_), RoleOption::ConnectionLimit(_)) => true,
        (RoleOption::Password(_), RoleOption::Password(_)) => true,
        (RoleOption::ValidUntil(_), RoleOption::ValidUntil(_)) => true,
        _ => false,
    }
}

/// Whether a role has what an option asks.
pub open spec fn has_role_option(o: LogicalRoleOptionsView, option: RoleOption) -> bool {
    match option {
        RoleOption::Superuser(x) => o.superuser == Some(x),
        RoleOption::Inherit(x) => o.inherit == Some(x),
        RoleOption::CreateRole(x) => o.create_role == Some(x),
        RoleOption::CreateDb(x) => o.create_db == Some(x),
        RoleOption::Login(x) => o.can_login == Some(x),
        RoleOption::Replication(x) => o.replication == Some(x),
        RoleOption::BypassRls(x) => o.bypass_rls == Some(x),
        RoleOption::ConnectionLimit(x) => o.connection_limit == Some(x),
        RoleOption::Password(p) => o.password matches Some(kept) && (match (p, kept) {
            (Some(a), Some(b)) => b == a@,
            (None, None) => true,
            _ => false,
        }),
        RoleOption::ValidUntil(until) => o.valid_until == Some(until@),
    }
}

/// Whether the options of a role say nothing about a kind of option.
pub open spec fn lacks_role_option(o: LogicalRoleOptionsView, kind: RoleOption) -> bool {
    match kind {
        RoleOption::Superuser(_) => o.superuser is None,
        RoleOption::Inherit(_) => o.inherit is None,
        RoleOption::CreateRole(_) => o.create_role is None,
        RoleOption::CreateDb(_) => o.create_db is None,
        RoleOption::Login(_) => o.can_login is None,
        RoleOption::Replication(_) => o.replication is None,
        RoleOption::BypassRls(_) => o.bypass_rls is None,
        RoleOption::ConnectionLimit(_) => o.connection_limit is None,
        RoleOption::Password(_) => o.password is None,
        RoleOption::ValidUntil(_) => o.valid_until is None,
    }
}

/// A role has what the last of its options of a kind asks.
pub proof fn last_role_options_count(options: Seq<RoleOption>, n: int, k: int)
    requires
        0 <= k < n <= options.len(),
        forall|j: int| k < j < n ==> !#[trigger] same_role_kind(options[j], options[k]),
    ensures
        has_role_option(sequence::role_options(options, n), options[k]),
    decreases n,
{
    if n - 1 > k {
        last_role_options_count(options, n - 1, k);
        assert(!same_role_kind(options[n - 1], options[k]));
    }
}

/// The options of a role say nothing about a kind of option that is not stated.
pub proof fn unstated_role_options_are_left(options: Seq<RoleOption>, n: int, kind: RoleOption)
    requires
        0 <= n <= options.len(),
        forall|j: int| 0 <= j < n ==> !#[trigger] same_role_kind(options[j], kind),
    ensures
        lacks_role_option(sequence::role_options(options, n), kind),
    decreases n,
{
    if n > 0 {
        unstated_role_options_are_left(options, n - 1, kind);
        assert(!same_role_kind(options[n - 1], kind));
    }
}

/// Whether a text names the known table that a name refers to.
pub open spec fn is_table(name: ObjectName, table: Seq<char>, cat: CatalogView) -> bool {
    let n = name.parts@.len() as int;
    let own = text::lower(names::last_part(name));
    if n < 2 {
        table == own && (cat.table)(own) is Some
    } else {
        let space = text::lower(name.parts@[n - 2].value@);
        table == space + "."@ + own && (cat.table_in)(space, own) is Some
    }
}

/// Whether a text names the known table of a column that a name refers to, and a
/// number the place of that column, counted from one.
pub open spec fn is_column(
    name: ObjectName,
    table: Seq<char>,
    column: Seq<char>,
    attnum: i32,
    cat: CatalogView,
) -> bool {
    let n = name.parts@.len() as int;
    let own = text::lower(name.parts@[n - 2].value@);
    &&& n >= 2
    &&& column == text::lower(names::last_part(name))
    &&& n == 2 ==> {
        &&& table == own
        &&& (cat.table)(own) matches Some(meta) && sources::first_named(
            meta.schema,
            attnum - 1,
            column,
        )
    }
    &&& n >= 3 ==> {
        let space = text::lower(name.parts@[n - 3].value@);
        &&& table == space + "."@ + own
        &&& (cat.table_in)(space, own) matches Some(meta) && sources::first_named(
            meta.schema,
            attnum - 1,
            column,
        )
    }
}

proof fn commented_columns_are_those_named(name: ObjectName, cat: CatalogView)
    ensures
        sequence::comment_column(name, cat) matches Ok(subject) ==> (subject matches
            LogicalCommentTargetView::Column { table, column, attnum } && is_column(
            name,
            table,
            column,
            attnum,
            cat,
        )),
{
    if name.parts@.len() >= 2 {
        if let Ok((table, row)) = sequence::owner_table(name, cat) {
            let column = text::lower(names::last_part(name));
            schema::find_gives_first(row.fields, column, 0);
            if let Some(i) = schema::find_field(row, column) {
                assert(sources::first_named(row, i, column));
            }
        }
    }
}

/// A comment keeps its text and is attached to what it names: a table, an index,
/// or a column, which is counted from one.
pub proof fn comments_keep_their_subject(s: CommentStmt, cat: CatalogView)
    ensures
        sequence::bound_comment(s, cat) matches Ok(p) ==> {
            &&& p matches LogicalPlanView::Comment { subject, comment, .. }
            &&& s.comment is Some <==> comment is Some
            &&& s.comment matches Some(t) ==> comment == Some(t@)
            &&& match (s.target, subject) {
                (CommentTarget::Table(name), LogicalCommentTargetView::Table { table }) => is_table(
                    name,
                    table,
                    cat,
                ),
                (
                    CommentTarget::Index(name),
                    LogicalCommentTargetView::Index { index, namespace },
                ) => index == text::lower(names::last_part(name)) && states_namespace(
                    name,
                    namespace,
                ),
                (
                    CommentTarget::Column(name),
                    LogicalCommentTargetView::Column { table, column, attnum },
                ) => is_column(name, table, column, attnum, cat),
                _ => false,
            }
        },
{
    if let CommentTarget::Column(name) = s.target {
        commented_columns_are_those_named(name, cat);
    }
}

} // verus!

//! Binding of statements on sequences, schemas, roles and comments.
use crate::ast::{
    AlterRoleStmt, AlterSequenceStmt, CommentStmt, CommentTarget, CreateRoleStmt, CreateSchemaStmt,
    CreateSequenceStmt, DropRoleStmt, DropSchemaStmt, DropSequenceStmt, ObjectName,
    RoleOption, RoleStmtKind, SequenceOption,
};
use crate::binder::names;
use crate::binder::names::{
    object_name_explicit_namespace, object_name_namespace, object_name_simple,
};
use crate::catalog::{Catalog, CatalogView};
use crate::dialect::ddl::shared;
use crate::dialect::ddl::shared::all_lower_names;
use crate::dialect::dml::lookup_target_table;
use crate::dialect::{dml, operation};
use crate::error::{PlanError, PlanErrorView};
use crate::plan::{
    LogicalCommentTarget, LogicalCommentTargetView, LogicalPlan, LogicalPlanView, LogicalRoleKind,
    LogicalRoleOptions, LogicalRoleOptionsView, LogicalSequenceChange, LogicalSequenceOptions,
};
use crate::schema::Schema;
use crate::text::{owned, to_lower};
use crate::{error, list, schema, text};
use vstd::prelude::*;

verus! {

/// The options of a sequence that states none.
pub open spec fn plain_sequence() -> LogicalSequenceOptions {
    LogicalSequenceOptions {
        start: 1,
        increment: 1,
        min: None,
        max: None,
        cache: 1,
        cycle: false,
    }
}

/// The complaint about a cache that is negative or too large.
pub open spec fn cache_mismatch() -> PlanErrorView {
    PlanErrorView::TypeMismatch("sequence CACHE does not fit u32"@)
}

/// A sequence's options and its stated start after the options from the `i`-th
/// on; of two options of one kind the later counts.
pub open spec fn stated_options(
    options: Seq<SequenceOption>,
    i: int,
    acc: LogicalSequenceOptions,
    start: Option<i64>,
) -> Result<(LogicalSequenceOptions, Option<i64>), PlanErrorView>
    decreases options.len() - i,
{
    if i < 0 || i >= options.len() {
        Ok((acc, start))
    } else {
        match options[i] {
            SequenceOption::Start(v) => stated_options(options, i + 1, acc, Some(v)),
            SequenceOption::Restart(_) => Err(
                PlanErrorView::NotSupported(
                    "CREATE SEQUENCE: RESTART is only valid in ALTER SEQUENCE"@,
                ),
            ),
            SequenceOption::Increment(v) => stated_options(
                options,
                i + 1,
                LogicalSequenceOptions { increment: v, ..acc },
                start,
            ),
            SequenceOption::MinValue(v) => stated_options(
                options,
                i + 1,
                LogicalSequenceOptions { min: v, ..acc },
                start,
            ),
            SequenceOption::MaxValue(v) => stated_options(
                options,
                i + 1,
                LogicalSequenceOptions { max: v, ..acc },
                start,
            ),
            SequenceOption::Cache(v) => if 0 <= v <= u32::MAX {
                stated_options(
                    options,
                    i + 1,
                    LogicalSequenceOptions { cache: v as u32, ..acc },
                    start,
                )
            } else {
                Err(cache_mismatch())
            },
            SequenceOption::Cycle(v) => stated_options(
                options,
                i + 1,
                LogicalSequenceOptions { cycle: v, ..acc },
                start,
            ),
        }
    }
}

/// The lowest value of a sequence.
pub open spec fn lowest(o: LogicalSequenceOptions) -> i64 {
    match o.min {
        Some(n) => n,
        None => if o.increment > 0 {
            1
        } else {
            i64::MIN
        },
    }
}

/// The highest value of a sequence.
pub open spec fn highest(o: LogicalSequenceOptions) -> i64 {
    match o.max {
        Some(n) => n,
        None => if o.increment > 0 {
            i64::MAX
        } else {
            -1i64
        },
    }
}

/// Where a sequence starts that does not say so: at its low end when it
/// ascends, at its high end when it descends.
pub open spec fn default_start(o: LogicalSequenceOptions) -> i64 {
    if o.increment > 0 {
        lowest(o)
    } else {
        highest(o)
    }
}

/// Where a sequence starts that does not say so.
pub fn default_sequence_start(options: LogicalSequenceOptions) -> (start: i64)
    ensures
        start == default_start(options),
{
    if options.increment > 0 {
        match options.min {
            Some(n) => n,
            None => 1,
        }
    } else {
        match options.max {
            Some(n) => n,
            None => -1,
        }
    }
}

/// Whether the options of a sequence fit together, or the first complaint.
pub open spec fn sequence_rule(o: LogicalSequenceOptions) -> Result<(), PlanErrorView> {
    if o.increment == 0 {
        Err(PlanErrorView::TypeMismatch("sequence INCREMENT must not be zero"@))
    } else if o.cache == 0 {
        Err(PlanErrorView::TypeMismatch("sequence CACHE must be greater than zero"@))
    } else if lowest(o) >= highest(o) {
        Err(PlanErrorView::TypeMismatch("sequence MINVALUE must be less than MAXVALUE"@))
    } else if o.start < lowest(o) || o.start > highest(o) {
        Err(PlanErrorView::TypeMismatch("sequence START is outside MINVALUE/MAXVALUE"@))
    } else {
        Ok(())
    }
}

/// Checks that the options of a sequence fit together.
pub fn validate_sequence_options(options: LogicalSequenceOptions) -> (made: Result<(), PlanError>)
    ensures
        error::outcome(made) == sequence_rule(options),
{
    if options.increment == 0 {
        return Err(PlanError::TypeMismatch(owned("sequence INCREMENT must not be zero")));
    }
    if options.cache == 0 {
        return Err(PlanError::TypeMismatch(owned("sequence CACHE must be greater than zero")));
    }
    let ascending = options.increment > 0;
    let min: i64 = match options.min {
        Some(n) => n,
        None => if ascending {
            1
        } else {
            i64::MIN
        },
    };
    let max: i64 = match options.max {
        Some(n) => n,
        None => if ascending {
            i64::MAX
        } else {
            -1
        },
    };
    if min >= max {
        return Err(
            PlanError::TypeMismatch(owned("sequence MINVALUE must be less than MAXVALUE")),
        );
    }
    if options.start < min || options.start > max {
        return Err(
            PlanError::TypeMismatch(owned("sequence START is outside MINVALUE/MAXVALUE")),
        );
    }
    Ok(())
}

/// The options of a new sequence.
pub open spec fn sequence_options(options: Seq<SequenceOption>) -> Result<
    LogicalSequenceOptions,
    PlanErrorView,
> {
    match stated_options(options, 0, plain_sequence(), None) {
        Err(e) => Err(e),
        Ok((o, start)) => {
            let made = LogicalSequenceOptions {
                start: match start {
                    Some(n) => n,
                    None => default_start(o),
                },
                ..o
            };
            match sequence_rule(made) {
                Err(e) => Err(e),
                Ok(_) => Ok(made),
            }
        },
    }
}

fn read_options(options: &Vec<SequenceOption>) -> (made: Result<
    (LogicalSequenceOptions, Option<i64>),
    PlanError,
>)
    ensures
        error::outcome(made) == stated_options(options@, 0, plain_sequence(), None),
{
    let mut out = LogicalSequenceOptions {
        start: 1,
        increment: 1,
        min: None,
        max: None,
        cache: 1,
        cycle: false,
    };
    let mut start: Option<i64> = None;
    let mut i: usize = 0;
    while i < options.len()
        invariant
            i <= options.len(),
            stated_options(options@, i as int, out, start) == stated_options(
                options@,
                0,
                plain_sequence(),
                None,
            ),
        decreases options.len() - i,
    {
        match options[i] {
            SequenceOption::Start(v) => {
                start = Some(v);
            },
            SequenceOption::Restart(_) => {
                return Err(
                    PlanError::NotSupported(
                        "CREATE SEQUENCE: RESTART is only valid in ALTER SEQUENCE",
                    ),
                );
            },
            SequenceOption::Increment(v) => {
                out.increment = v;
            },
            SequenceOption::MinValue(v) => {
                out.min = v;
            },
            SequenceOption::MaxValue(v) => {
                out.max = v;
            },
            SequenceOption::Cache(v) => {
                if v < 0 || v > 4_294_967_295 {
                    return Err(PlanError::TypeMismatch(owned("sequence CACHE does not fit u32")));
                }
                out.cache = v as u32;
            },
            SequenceOption::Cycle(v) => {
                out.cycle = v;
            },
        }
        i = i + 1;
    }
    Ok((out, start))
}

/// Binds the options of a new sequence.
pub fn bind_sequence_options(options: &Vec<SequenceOption>) -> (made: Result<
    LogicalSequenceOptions,
    PlanError,
>)
    ensures
        error::outcome(made) == sequence_options(options@),
{
    let (stated, start) = read_options(options)?;
    let mut out = stated;
    out.start = match start {
        Some(n) => n,
        None => default_sequence_start(stated),
    };
    validate_sequence_options(out)?;
    Ok(out)
}

/// The options of an accepted sequence fit together: it moves, it has room, and
/// it starts within its bounds.
pub proof fn accepted_sequences_are_sound(options: Seq<SequenceOption>)
    ensures
        sequence_options(options) matches Ok(o) ==> {
            &&& o.increment != 0
            &&& o.cache > 0
            &&& lowest(o) < highest(o)
            &&& lowest(o) <= o.start <= highest(o)
        },
{
}

/// The sequence without options counts from one upwards.
pub proof fn plain_sequences_are_accepted()
    ensures
        sequence_options(Seq::empty()) == Ok::<LogicalSequenceOptions, PlanErrorView>(
            plain_sequence(),
        ),
{
}

/// The changes of a sequence from the `i`-th option on; of two options of one
/// kind the later counts.
pub open spec fn stated_changes(
    options: Seq<SequenceOption>,
    i: int,
    acc: LogicalSequenceChange,
) -> Result<LogicalSequenceChange, PlanErrorView>
    decreases options.len() - i,
{
    if i < 0 || i >= options.len() {
        Ok(acc)
    } else {
        match options[i] {
            SequenceOption::Start(v) => stated_changes(
                options,
                i + 1,
                LogicalSequenceChange { start: Some(v), ..acc },
            ),
            SequenceOption::Restart(v) => stated_changes(
                options,
                i + 1,
                LogicalSequenceChange { restart: Some(v), ..acc },
            ),
            SequenceOption::Increment(v) => stated_changes(
                options,
                i + 1,
                LogicalSequenceChange { increment: Some(v), ..acc },
            ),
            SequenceOption::MinValue(v) => stated_changes(
                options,
                i + 1,
                LogicalSequenceChange { min: Some(v), ..acc },
            ),
            SequenceOption::MaxValue(v) => stated_changes(
                options,
                i + 1,
                LogicalSequenceChange { max: Some(v), ..acc },
            ),
            SequenceOption::Cache(v) => if 0 <= v <= u32::MAX {
                stated_changes(
                    options,
                    i + 1,
                    LogicalSequenceChange { cache: Some(v as u32), ..acc },
                )
            } else {
                Err(cache_mismatch())
            },
            SequenceOption::Cycle(v) => stated_changes(
                options,
                i + 1,
                LogicalSequenceChange { cycle: Some(v), ..acc },
            ),
        }
    }
}

/// No change of a sequence.
pub open spec fn no_change() -> LogicalSequenceChange {
    LogicalSequenceChange {
        start: None,
        restart: None,
        increment: None,
        min: None,
        max: None,
        cache: None,
        cycle: None,
    }
}

/// Binds the changes of a sequence.
pub fn bind_sequence_change(options: &Vec<SequenceOption>) -> (made: Result<
    LogicalSequenceChange,
    PlanError,
>)
    ensures
        error::outcome(made) == stated_changes(options@, 0, no_change()),
{
    let mut out = LogicalSequenceChange {
        start: None,
        restart: None,
        increment: None,
        min: None,
        max: None,
        cache: None,
        cycle: None,
    };
    let mut i: usize = 0;
    while i < options.len()
        invariant
            i <= options.len(),
            stated_changes(options@, i as int, out) == stated_changes(options@, 0, no_change()),
        decreases options.len() - i,
    {
        match options[i] {
            SequenceOption::Start(v) => {
                out.start = Some(v);
            },
            SequenceOption::Restart(v) => {
                out.restart = Some(v);
            },
            SequenceOption::Increment(v) => {
                out.increment = Some(v);
            },
            SequenceOption::MinValue(v) => {
                out.min = Some(v);
            },
            SequenceOption::MaxValue(v) => {
                out.max = Some(v);
            },
            SequenceOption::Cache(v) => {
                if v < 0 || v > 4_294_967_295 {
                    return Err(PlanError::TypeMismatch(owned("sequence CACHE does not fit u32")));
                }
                out.cache = Some(v as u32);
            },
            SequenceOption::Cycle(v) => {
                out.cycle = Some(v);
            },
        }
        i = i + 1;
    }
    Ok(out)
}

/// What a `CREATE SEQUENCE` is bound to.
pub open spec fn bound_create_sequence(s: CreateSequenceStmt) -> Result<
    LogicalPlanView,
    PlanErrorView,
> {
    match sequence_options(s.options@) {
        Err(e) => Err(e),
        Ok(options) => Ok(
            LogicalPlanView::CreateSequence {
                sequence_name: names::simple_name(s.name),
                namespace: names::namespace_of(s.name),
                options,
                if_not_exists: s.if_not_exists,
                schema: schema::empty_schema(),
            },
        ),
    }
}

/// Binds a `CREATE SEQUENCE` statement.
pub fn bind_create_sequence(s: &CreateSequenceStmt) -> (made: Result<LogicalPlan, PlanError>)
    ensures
        error::plan_outcome(made) == bound_create_sequence(*s),
{
    let options = bind_sequence_options(&s.options)?;
    Ok(
        LogicalPlan::CreateSequence {
            sequence_name: object_name_simple(&s.name),
            namespace: object_name_namespace(&s.name),
            options,
            if_not_exists: s.if_not_exists,
            schema: Schema::empty(),
        },
    )
}

/// What an `ALTER SEQUENCE` is bound to.
pub open spec fn bound_alter_sequence(s: AlterSequenceStmt) -> Result<
    LogicalPlanView,
    PlanErrorView,
> {
    match stated_changes(s.options@, 0, no_change()) {
        Err(e) => Err(e),
        Ok(changes) => Ok(
            LogicalPlanView::AlterSequence {
                sequence_name: names::simple_name(s.name),
                explicit_namespace: names::explicit_namespace_of(s.name),
                changes,
                schema: schema::empty_schema(),
            },
        ),
    }
}

/// Binds an `ALTER SEQUENCE` statement.
pub fn bind_alter_sequence(s: &AlterSequenceStmt) -> (made: Result<LogicalPlan, PlanError>)
    ensures
        error::plan_outcome(made) == bound_alter_sequence(*s),
{
    let changes = bind_sequence_change(&s.options)?;
    Ok(
        LogicalPlan::AlterSequence {
            sequence_name: object_name_simple(&s.name),
            explicit_namespace: object_name_explicit_namespace(&s.name),
            changes,
            schema: Schema::empty(),
        },
    )
}

/// The last parts of names in lower case.
pub open spec fn simple_names(s: Seq<ObjectName>) -> Seq<Seq<char>> {
    Seq::new(s.len(), |i: int| names::simple_name(s[i]))
}

/// The namespaces that names state.
pub open spec fn stated_namespaces(s: Seq<ObjectName>) -> Seq<Option<Seq<char>>> {
    Seq::new(s.len(), |i: int| names::explicit_namespace_of(s[i]))
}

/// The last parts of names in lower case.
pub fn all_simple_names(s: &Vec<ObjectName>) -> (out: Vec<String>)
    ensures
        list::strings_view(out@) == simple_names(s@),
{
    let mut out: Vec<String> = Vec::new();
    let mut i: usize = 0;
    while i < s.len()
        invariant
            i <= s.len(),
            out.len() == i,
            forall|j: int| 0 <= j < i ==> (#[trigger] out@[j])@ == simple_names(s@)[j],
        decreases s.len() - i,
    {
        out.push(object_name_simple(&s[i]));
        i = i + 1;
    }
    assert(list::strings_view(out@) =~= simple_names(s@));
    out
}

/// The namespaces that names state.
pub fn all_stated_namespaces(s: &Vec<ObjectName>) -> (out: Vec<Option<String>>)
    ensures
        list::optional_strings_view(out@) == stated_namespaces(s@),
{
    let mut out: Vec<Option<String>> = Vec::new();
    let mut i: usize = 0;
    while i < s.len()
        invariant
            i <= s.len(),
            out.len() == i,
            forall|j: int|
                0 <= j < i ==> operation::text_view(#[trigger] out@[j]) == stated_namespaces(
                    s@,
                )[j],
        decreases s.len() - i,
    {
        out.push(object_name_explicit_namespace(&s[i]));
        i = i + 1;
    }
    assert(list::optional_strings_view(out@) =~= stated_namespaces(s@));
    out
}

/// What a `DROP SEQUENCE` is bound to.
pub open spec fn bound_drop_sequence(s: DropSequenceStmt) -> LogicalPlanView {
    LogicalPlanView::DropSequence {
        sequences: simple_names(s.names@),
        sequence_namespaces: stated_namespaces(s.names@),
        if_exists: s.if_exists,
        cascade: s.cascade,
        schema: schema::empty_schema(),
    }
}

/// Binds a `DROP SEQUENCE` statement.
pub fn bind_drop_sequence(s: &DropSequenceStmt) -> (made: LogicalPlan)
    ensures
        made@ == bound_drop_sequence(*s),
{
    LogicalPlan::DropSequence {
        sequences: all_simple_names(&s.names),
        sequence_namespaces: all_stated_namespaces(&s.names),
        if_exists: s.if_exists,
        cascade: s.cascade,
        schema: Schema::empty(),
    }
}

/// What a `CREATE SCHEMA` is bound to.
pub open spec fn created_schema(s: CreateSchemaStmt) -> LogicalPlanView {
    LogicalPlanView::CreateSchema {
        schema_name: text::lower(s.name.value@),
        if_not_exists: s.if_not_exists,
        schema: schema::empty_schema(),
    }
}

/// Binds a `CREATE SCHEMA` statement.
pub fn bind_create_schema(s: &CreateSchemaStmt) -> (made: LogicalPlan)
    ensures
        made@ == created_schema(*s),
{
    LogicalPlan::CreateSchema {
        schema_name: to_lower(s.name.value.as_str()),
        if_not_exists: s.if_not_exists,
        schema: Schema::empty(),
    }
}

/// What a `DROP SCHEMA` is bound to.
pub open spec fn dropped_schemas(s: DropSchemaStmt) -> LogicalPlanView {
    LogicalPlanView::DropSchema {
        schemas: shared::lower_names(s.names@),
        if_exists: s.if_exists,
        cascade: s.cascade,
        schema: schema::empty_schema(),
    }
}

/// Binds a `DROP SCHEMA` statement.
pub fn bind_drop_schema(s: &DropSchemaStmt) -> (made: LogicalPlan)
    ensures
        made@ == dropped_schemas(*s),
{
    LogicalPlan::DropSchema {
        schemas: all_lower_names(&s.names),
        if_exists: s.if_exists,
        cascade: s.cascade,
        schema: Schema::empty(),
    }
}

/// `ROLE` or `USER`.
pub open spec fn role_kind(kind: RoleStmtKind) -> LogicalRoleKind {
    match kind {
        RoleStmtKind::Role => LogicalRoleKind::Role,
        RoleStmtKind::User => LogicalRoleKind::User,
    }
}

/// `ROLE` or `USER`.
pub fn bind_role_kind(kind: RoleStmtKind) -> (made: LogicalRoleKind)
    ensures
        made == role_kind(kind),
{
    match kind {
        RoleStmtKind::Role => LogicalRoleKind::Role,
        RoleStmtKind::User => LogicalRoleKind::User,
    }
}

/// No option of a role.
pub open spec fn no_role_options() -> LogicalRoleOptionsView {
    LogicalRoleOptionsView {
        superuser: None,
        inherit: None,
        create_role: None,
        create_db: None,
        can_login: None,
        replication: None,
        bypass_rls: None,
        connection_limit: None,
        password: None,
        valid_until: None,
    }
}

/// The options of a role after one more.
pub open spec fn with_role_option(
    acc: LogicalRoleOptionsView,
    o: RoleOption,
) -> LogicalRoleOptionsView {
    match o {
        RoleOption::Superuser(v) => LogicalRoleOptionsView { superuser: Some(v), ..acc },
        RoleOption::Inherit(v) => LogicalRoleOptionsView { inherit: Some(v), ..acc },
        RoleOption::CreateRole(v) => LogicalRoleOptionsView { create_role: Some(v), ..acc },
        RoleOption::CreateDb(v) => LogicalRoleOptionsView { create_db: Some(v), ..acc },
        RoleOption::Login(v) => LogicalRoleOptionsView { can_login: Some(v), ..acc },
        RoleOption::Replication(v) => LogicalRoleOptionsView { replication: Some(v), ..acc },
        RoleOption::BypassRls(v) => LogicalRoleOptionsView { bypass_rls: Some(v), ..acc },
        RoleOption::ConnectionLimit(v) => LogicalRoleOptionsView {
            connection_limit: Some(v),
            ..acc
        },
        RoleOption::Password(v) => LogicalRoleOptionsView {
            password: Some(operation::text_view(v)),
            ..acc
        },
        RoleOption::ValidUntil(v) => LogicalRoleOptionsView { valid_until: Some(v@), ..acc },
    }
}

/// The options of a role after the first `n`; of two options of one kind the
/// later counts.
pub open spec fn role_options(options: Seq<RoleOption>, n: int) -> LogicalRoleOptionsView
    decreases n,
{
    if n <= 0 || n > options.len() {
        no_role_options()
    } else {
        with_role_option(role_options(options, n - 1), options[n - 1])
    }
}

/// Binds the options of a role.
pub fn bind_role_options(options: &Vec<RoleOption>) -> (made: LogicalRoleOptions)
    ensures
        made@ == role_options(options@, options@.len() as int),
{
    let mut out = LogicalRoleOptions {
        superuser: None,
        inherit: None,
        create_role: None,
        create_db: None,
        can_login: None,
        replication: None,
        bypass_rls: None,
        connection_limit: None,
        password: None,
        valid_until: None,
    };
    let mut i: usize = 0;
    while i < options.len()
        invariant
            i <= options.len(),
            out@ == role_options(options@, i as int),
        decreases options.len() - i,
    {
        match &options[i] {
            RoleOption::Superuser(v) => {
                out.superuser = Some(*v);
            },
            RoleOption::Inherit(v) => {
                out.inherit = Some(*v);
            },
            RoleOption::CreateRole(v) => {
                out.create_role = Some(*v);
            },
            RoleOption::CreateDb(v) => {
                out.create_db = Some(*v);
            },
            RoleOption::Login(v) => {
                out.can_login = Some(*v);
            },
            RoleOption::Replication(v) => {
                out.replication = Some(*v);
            },
            RoleOption::BypassRls(v) => {
                out.bypass_rls = Some(*v);
            },
            RoleOption::ConnectionLimit(v) => {
                out.connection_limit = Some(*v);
            },
            RoleOption::Password(v) => {
                let password = match v {
                    Some(s) => Some(s.clone()),
                    None => None,
                };
                out.password = Some(password);
            },
            RoleOption::ValidUntil(v) => {
                out.valid_until = Some(v.clone());
            },
        }
        i = i + 1;
    }
    out
}

/// What a `CREATE ROLE` is bound to.
pub open spec fn created_role(s: CreateRoleStmt) -> LogicalPlanView {
    LogicalPlanView::CreateRole {
        kind: role_kind(s.kind),
        role_name: text::lower(s.name.value@),
        role_options: role_options(s.options@, s.options@.len() as int),
        if_not_exists: s.if_not_exists,
        schema: schema::empty_schema(),
    }
}

/// Binds a `CREATE ROLE` statement.
pub fn bind_create_role(s: &CreateRoleStmt) -> (made: LogicalPlan)
    ensures
        made@ == created_role(*s),
{
    LogicalPlan::CreateRole {
        kind: bind_role_kind(s.kind),
        role_name: to_lower(s.name.value.as_str()),
        role_options: bind_role_options(&s.options),
        if_not_exists: s.if_not_exists,
        schema: Schema::empty(),
    }
}

/// What an `ALTER ROLE` is bound to.
pub open spec fn altered_role(s: AlterRoleStmt) -> LogicalPlanView {
    LogicalPlanView::AlterRole {
        kind: role_kind(s.kind),
        role_name: text::lower(s.name.value@),
        role_options: role_options(s.options@, s.options@.len() as int),
        schema: schema::empty_schema(),
    }
}

/// Binds an `ALTER ROLE` statement.
pub fn bind_alter_role(s: &AlterRoleStmt) -> (made: LogicalPlan)
    ensures
        made@ == altered_role(*s),
{
    LogicalPlan::AlterRole {
        kind: bind_role_kind(s.kind),
        role_name: to_lower(s.name.value.as_str()),
        role_options: bind_role_options(&s.options),
        schema: Schema::empty(),
    }
}

/// What a `DROP ROLE` is bound to.
pub open spec fn dropped_roles(s: DropRoleStmt) -> LogicalPlanView {
    LogicalPlanView::DropRole {
        kind: role_kind(s.kind),
        roles: shared::lower_names(s.names@),
        if_exists: s.if_exists,
        cascade: s.cascade,
        schema: schema::empty_schema(),
    }
}

/// Binds a `DROP ROLE` statement.
pub fn bind_drop_role(s: &DropRoleStmt) -> (made: LogicalPlan)
    ensures
        made@ == dropped_roles(*s),
{
    LogicalPlan::DropRole {
        kind: bind_role_kind(s.kind),
        roles: all_lower_names(&s.names),
        if_exists: s.if_exists,
        cascade: s.cascade,
        schema: Schema::empty(),
    }
}

/// The table of the parts of a name before its last one: a name with two such
/// parts or more states a namespace.
pub open spec fn owner_table(name: ObjectName, cat: CatalogView) -> Result<
    (Seq<char>, crate::schema::SchemaView),
    PlanErrorView,
> {
    let n = name.parts@.len() as int;
    let table = text::lower(name.parts@[n - 2].value@);
    if n >= 3 {
        let ns = text::lower(name.parts@[n - 3].value@);
        match (cat.table_in)(ns, table) {
            Some(meta) => Ok((ns + "."@ + table, meta.schema)),
            None => Err(PlanErrorView::TableNotFound(ns + "."@ + table)),
        }
    } else {
        match (cat.table)(table) {
            Some(meta) => Ok((table, meta.schema)),
            None => Err(PlanErrorView::TableNotFound(table)),
        }
    }
}

fn find_owner_table<C: Catalog>(name: &ObjectName, catalog: &C) -> (made: Result<
    (String, Schema),
    PlanError,
>)
    requires
        name.parts.len() >= 2,
    ensures
        dml::table_outcome(made) == owner_table(*name, catalog.model()),
{
    let n: usize = name.parts.len();
    let table = to_lower(name.parts[n - 2].value.as_str());
    if n >= 3 {
        let ns = to_lower(name.parts[n - 3].value.as_str());
        let full = text::cat3(ns.as_str(), ".", table.as_str());
        match catalog.lookup_table_in_schema(ns.as_str(), table.as_str()) {
            Some(meta) => Ok((full, meta.schema)),
            None => Err(PlanError::TableNotFound(full)),
        }
    } else {
        match catalog.lookup_table(table.as_str()) {
            Some(meta) => Ok((table, meta.schema)),
            None => Err(PlanError::TableNotFound(table)),
        }
    }
}

/// The column that a comment is attached to. Columns are counted from one.
pub open spec fn comment_column(name: ObjectName, cat: CatalogView) -> Result<
    LogicalCommentTargetView,
    PlanErrorView,
> {
    let column = names::simple_name(name);
    if name.parts@.len() < 2 {
        Err(PlanErrorView::NotSupported("COMMENT ON COLUMN requires table.column"@))
    } else {
        match owner_table(name, cat) {
            Err(e) => Err(e),
            Ok((table, row)) => match schema::find_field(row, column) {
                None => Err(PlanErrorView::ColumnNotFound(column)),
                Some(i) => if i + 1 > i32::MAX {
                    Err(PlanErrorView::NotSupported("COMMENT ON COLUMN attnum overflow"@))
                } else {
                    Ok(
                        LogicalCommentTargetView::Column {
                            table,
                            column,
                            attnum: (i + 1) as i32,
                        },
                    )
                },
            },
        }
    }
}

/// A target of a comment with its outcome as models.
pub open spec fn target_outcome(r: Result<LogicalCommentTarget, PlanError>) -> Result<
    LogicalCommentTargetView,
    PlanErrorView,
> {
    match r {
        Ok(x) => Ok(x@),
        Err(e) => Err(e@),
    }
}

/// Finds the column that a comment is attached to.
pub fn bind_comment_column_target<C: Catalog>(name: &ObjectName, catalog: &C) -> (made: Result<
    LogicalCommentTarget,
    PlanError,
>)
    ensures
        target_outcome(made) == comment_column(*name, catalog.model()),
{
    if name.parts.len() < 2 {
        return Err(PlanError::NotSupported("COMMENT ON COLUMN requires table.column"));
    }
    let column = object_name_simple(name);
    let (table, row) = find_owner_table(name, catalog)?;
    match row.find(column.as_str()) {
        None => Err(PlanError::ColumnNotFound(column)),
        Some(i) => {
            if i >= 2_147_483_647 {
                return Err(PlanError::NotSupported("COMMENT ON COLUMN attnum overflow"));
            }
            Ok(LogicalCommentTarget::Column { table, column, attnum: i as i32 + 1 })
        },
    }
}

/// What a comment is attached to.
pub open spec fn comment_subject(t: CommentTarget, cat: CatalogView) -> Result<
    LogicalCommentTargetView,
    PlanErrorView,
> {
    match t {
        CommentTarget::Table(name) => match dml::target_table(name, cat) {
            Err(e) => Err(e),
            Ok((table, _)) => Ok(LogicalCommentTargetView::Table { table }),
        },
        CommentTarget::Index(name) => Ok(
            LogicalCommentTargetView::Index {
                index: names::simple_name(name),
                namespace: names::explicit_namespace_of(name),
            },
        ),
        CommentTarget::Column(name) => comment_column(name, cat),
    }
}

fn bind_comment_subject<C: Catalog>(t: &CommentTarget, catalog: &C) -> (made: Result<
    LogicalCommentTarget,
    PlanError,
>)
    ensures
        target_outcome(made) == comment_subject(*t, catalog.model()),
{
    match t {
        CommentTarget::Table(name) => {
            let (table, _) = lookup_target_table(catalog, name)?;
            Ok(LogicalCommentTarget::Table { table })
        },
        CommentTarget::Index(name) => Ok(
            LogicalCommentTarget::Index {
                index: object_name_simple(name),
                namespace: object_name_explicit_namespace(name),
            },
        ),
        CommentTarget::Column(name) => bind_comment_column_target(name, catalog),
    }
}

/// What a `COMMENT` is bound to.
pub open spec fn bound_comment(s: CommentStmt, cat: CatalogView) -> Result<
    LogicalPlanView,
    PlanErrorView,
> {
    match comment_subject(s.target, cat) {
        Err(e) => Err(e),
        Ok(subject) => Ok(
            LogicalPlanView::Comment {
                subject,
                comment: operation::text_view(s.comment),
                schema: schema::empty_schema(),
            },
        ),
    }
}

/// Binds a `COMMENT` statement.
pub fn bind_comment<C: Catalog>(s: &CommentStmt, catalog: &C) -> (made: Result<
    LogicalPlan,
    PlanError,
>)
    ensures
        error::plan_outcome(made) == bound_comment(*s, catalog.model()),
{
    let subject = bind_comment_subject(&s.target, catalog)?;
    let comment = match &s.comment {
        Some(t) => Some(t.clone()),
        None => None,
    };
    Ok(LogicalPlan::Comment { subject, comment, schema: Schema::empty() })
}

} // verus!

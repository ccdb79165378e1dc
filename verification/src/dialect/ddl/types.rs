//! What types are named by, and what plans keep of the statements that create them.
use crate::ast::{
    CompositeAttribute, CreateDomainStmt, CreateOperatorStmt, CreateTypeKind, CreateTypeStmt,
    DomainConstraint, TypeName,
};
use crate::binder::names;
use crate::catalog::CatalogView;
use crate::datatype::{DataTypeView, GeometryType, RangeType};
use crate::dialect::changes;
use crate::dialect::ddl::{objects, rules, shared, typedef};
use crate::dialect::reading::ReadingsView;
use crate::error::PlanErrorView;
use crate::plan::{LogicalCheckConstraintView, LogicalPlanView};
use crate::schema::{FieldView, SchemaView};
use crate::{list, schema, text};
use vstd::prelude::*;

verus! {

/// Whether a name and its modifiers are those of a type.
pub open spec fn names_type(n: Seq<char>, m: Seq<u32>, t: DataTypeView) -> bool {
    let first: Option<u32> = if m.len() > 0 {
        Some(m[0])
    } else {
        None
    };
    match t {
        DataTypeView::Int16 => n == "smallint"@ || n == "int2"@,
        DataTypeView::Int32 => n == "int"@ || n == "integer"@ || n == "int4"@,
        DataTypeView::Int64 => n == "bigint"@ || n == "int8"@,
        DataTypeView::Bool => n == "bool"@ || n == "boolean"@,
        DataTypeView::Float32 => n == "real"@ || n == "float4"@,
        DataTypeView::Float64 => {
            n == "double"@ || n == "double precision"@ || n == "float"@ || n == "float8"@
        },
        DataTypeView::Text { max_len } => {
            ||| n == "text"@ && max_len is None
            ||| (n == "varchar"@ || n == "character varying"@) && max_len == first
        },
        DataTypeView::Char { len } => {
            ||| (n == "char"@ || n == "character"@) && len == if m.len() > 0 {
                Some(m[0])
            } else {
                Some(1u32)
            }
            ||| n == "bpchar"@ && len == first
        },
        DataTypeView::Bit { len } => n == "bit"@ && len == if m.len() > 0 {
            Some(m[0])
        } else {
            Some(1u32)
        },
        DataTypeView::VarBit { max_len } => {
            (n == "varbit"@ || n == "bit varying"@) && max_len == first
        },
        DataTypeView::Bytea => n == "bytea"@,
        DataTypeView::Date => n == "date"@,
        DataTypeView::Time => n == "time"@ || n == "time without time zone"@,
        DataTypeView::TimeTz => n == "timetz"@ || n == "time with time zone"@,
        DataTypeView::Timestamp => n == "timestamp"@ || n == "timestamp without time zone"@,
        DataTypeView::TimestampTz => n == "timestamptz"@ || n == "timestamp with time zone"@,
        DataTypeView::Interval => n == "interval"@,
        DataTypeView::Uuid => n == "uuid"@,
        DataTypeView::Json => n == "json"@,
        DataTypeView::Jsonb => n == "jsonb"@,
        DataTypeView::Xml => n == "xml"@,
        DataTypeView::Money => n == "money"@,
        DataTypeView::Oid => n == "oid"@,
        DataTypeView::RegClass => n == "regclass"@,
        DataTypeView::RegType => n == "regtype"@,
        DataTypeView::PgLsn => n == "pg_lsn"@,
        DataTypeView::Inet => n == "inet"@,
        DataTypeView::Cidr => n == "cidr"@,
        DataTypeView::MacAddr => n == "macaddr"@,
        DataTypeView::MacAddr8 => n == "macaddr8"@,
        DataTypeView::Range(k) => match k {
            RangeType::Int4 => n == "int4range"@,
            RangeType::Int8 => n == "int8range"@,
            RangeType::Num => n == "numrange"@,
            RangeType::Date => n == "daterange"@,
            RangeType::Timestamp => n == "tsrange"@,
            RangeType::TimestampTz => n == "tstzrange"@,
        },
        DataTypeView::Geometry(k) => match k {
            GeometryType::Point => n == "point"@,
            GeometryType::Box => n == "box"@,
            GeometryType::Circle => n == "circle"@,
            GeometryType::Line => n == "line"@,
            GeometryType::Lseg => n == "lseg"@,
            GeometryType::Path => n == "path"@,
            GeometryType::Polygon => n == "polygon"@,
        },
        DataTypeView::Decimal { precision, scale } => {
            &&& n == "decimal"@ || n == "numeric"@
            &&& m.len() <= 2
            &&& precision == first
            &&& m.len() == 0 ==> scale is None
            &&& m.len() == 1 ==> scale == Some(0i32)
            &&& m.len() == 2 ==> (scale matches Some(k) && k as int == m[1] as int)
        },
        DataTypeView::Vector { dims } => n == "vector"@ && dims == first,
        DataTypeView::HalfVec { dims } => n == "halfvec"@ && dims == first,
        DataTypeView::SparseVec { dims } => n == "sparsevec"@ && dims == first,
        DataTypeView::BitVec { dims } => n == "bitvec"@ && dims == first,
        _ => false,
    }
}

/// A type is the one of its name, with its modifiers.
pub proof fn types_have_their_names(n: Seq<char>, m: Seq<u32>)
    ensures
        typedef::scalar_type(n, m) matches Ok(t) ==> names_type(n, m, t),
{
}

/// The type of the elements of an array of some levels.
pub open spec fn element_of(t: DataTypeView, levels: nat) -> Option<DataTypeView>
    decreases levels,
{
    if levels == 0 {
        Some(t)
    } else {
        match t {
            DataTypeView::Array(inner) => element_of(*inner, (levels - 1) as nat),
            _ => None,
        }
    }
}

proof fn nested_types_have_their_levels(t: DataTypeView, levels: nat)
    ensures
        element_of(typedef::nested(t, levels), levels) == Some(t),
    decreases levels,
{
    if levels > 0 {
        nested_types_have_their_levels(t, (levels - 1) as nat);
    }
}

/// A declared type is the one of its name, as often in an array as it says; a name
/// that is no type's own is asked of the catalog.
pub proof fn declared_types_are_those_stated(t: TypeName, cat: CatalogView)
    ensures
        typedef::declared_type_in(t, cat) matches Ok(made) ==> {
            let levels: nat = if !t.is_array {
                0
            } else if t.array_dimensions == 0 {
                1
            } else {
                t.array_dimensions as nat
            };
            &&& element_of(made, levels) matches Some(element)
            &&& names_type(t.name.value@, t.type_modifiers@, element) || typedef::custom_type(
                t.name.value@,
                t.type_modifiers@,
                cat,
            ) == Some(element)
        },
{
    types_have_their_names(t.name.value@, t.type_modifiers@);
    let levels = typedef::levels_of(t);
    if let Ok(element) = typedef::scalar_type(t.name.value@, t.type_modifiers@) {
        nested_types_have_their_levels(element, levels);
    } else {
        if let Some(element) = typedef::custom_type(t.name.value@, t.type_modifiers@, cat) {
            nested_types_have_their_levels(element, levels);
        }
    }
}

/// A serial column is a number of the width of its type's name, filled from the
/// sequence of the table and the column. Every other column has its declared type
/// and is filled from none.
pub proof fn column_types_are_those_stated(
    table: Seq<char>,
    column: Seq<char>,
    t: TypeName,
    cat: CatalogView,
)
    ensures
        typedef::column_type(table, column, t, cat) matches Ok((made, sequence)) ==> {
            let n = t.name.value@;
            &&& sequence is Some <==> {
                ||| n == "serial"@ || n == "serial4"@
                ||| n == "bigserial"@ || n == "serial8"@
                ||| n == "smallserial"@ || n == "serial2"@
            }
            &&& sequence matches Some(name) ==> name == text::lower(table) + "_"@ + text::lower(
                column,
            ) + "_seq"@
            &&& sequence is Some ==> {
                ||| made is Int32 && (n == "serial"@ || n == "serial4"@)
                ||| made is Int64 && (n == "bigserial"@ || n == "serial8"@)
                ||| made is Int16 && (n == "smallserial"@ || n == "serial2"@)
            }
            &&& sequence is None ==> typedef::declared_type_in(t, cat) == Ok::<_, PlanErrorView>(
                made,
            )
        },
{
}

/// Whether attributes of a composite type are the first `n` of those stated, each
/// under its name, with its type, and with nulls.
pub open spec fn has_attributes(
    stated: Seq<CompositeAttribute>,
    n: int,
    fields: Seq<FieldView>,
    cat: CatalogView,
) -> bool {
    &&& fields.len() == n
    &&& forall|k: int|
        0 <= k < n ==> {
            &&& (#[trigger] fields[k]).name == stated[k].name.value@
            &&& typedef::declared_type_in(stated[k].data_type, cat) == Ok::<_, PlanErrorView>(
                fields[k].data_type,
            )
            &&& fields[k].nullable
        }
}

proof fn attributes_are_those_stated(
    stated: Seq<CompositeAttribute>,
    i: int,
    cat: CatalogView,
    acc: Seq<FieldView>,
)
    requires
        0 <= i <= stated.len(),
        has_attributes(stated, i, acc, cat),
    ensures
        typedef::attributes_from(stated, i, cat, acc) matches Ok(out) ==> has_attributes(
            stated,
            stated.len() as int,
            out,
            cat,
        ),
    decreases stated.len() - i,
{
    if i < stated.len() {
        if let Ok(t) = typedef::declared_type_in(stated[i].data_type, cat) {
            let next = acc.push(schema::nullable_field(stated[i].name.value@, t));
            assert forall|k: int| 0 <= k < i + 1 implies {
                &&& (#[trigger] next[k]).name == stated[k].name.value@
                &&& typedef::declared_type_in(stated[k].data_type, cat) == Ok::<_, PlanErrorView>(
                    next[k].data_type,
                )
                &&& next[k].nullable
            } by {
                if k < i {
                    assert(next[k] == acc[k]);
                }
            }
            attributes_are_those_stated(stated, i + 1, cat, next);
        }
    }
}

/// A `CREATE TYPE` makes the type of its name: of its labels or of its attributes,
/// in order. A label occurs once.
pub proof fn created_types_are_those_stated(s: CreateTypeStmt, cat: CatalogView)
    ensures
        typedef::bound_create_type(s, cat) matches Ok(p) ==> match (s.kind, p) {
            (
                CreateTypeKind::Enum { labels: stated },
                LogicalPlanView::CreateTypeEnum { name, namespace, labels, .. },
            ) => {
                &&& name == text::lower(names::last_part(s.name))
                &&& objects::in_namespace(s.name, namespace)
                &&& (cat.named_type_in)(namespace, name) is None
                &&& labels.len() == stated@.len() && labels.len() > 0
                &&& forall|k: int| 0 <= k < labels.len() ==> (#[trigger] labels[k]) == stated@[k]@
                &&& forall|j: int, k: int|
                    0 <= j < k < labels.len() ==> #[trigger] labels[j] != #[trigger] labels[k]
            },
            (
                CreateTypeKind::Composite { attributes: stated },
                LogicalPlanView::CreateTypeComposite { name, namespace, attributes, .. },
            ) => {
                &&& name == text::lower(names::last_part(s.name))
                &&& objects::in_namespace(s.name, namespace)
                &&& (cat.named_type_in)(namespace, name) is None
                &&& stated@.len() > 0
                &&& has_attributes(stated@, stated@.len() as int, attributes.fields, cat)
            },
            _ => false,
        },
{
    match s.kind {
        CreateTypeKind::Enum { labels } => {
            labels_occur_once(list::strings_view(labels@), 0);
        },
        CreateTypeKind::Composite { attributes } => {
            attributes_are_those_stated(attributes@, 0, cat, Seq::empty());
        },
    }
}

proof fn labels_occur_once(labels: Seq<Seq<char>>, i: int)
    requires
        0 <= i <= labels.len(),
    ensures
        typedef::repeated_label(labels, i) is None ==> forall|j: int, k: int|
            0 <= j < k < labels.len() && i <= k ==> #[trigger] labels[j] != #[trigger] labels[k],
    decreases labels.len() - i,
{
    if i < labels.len() {
        labels_occur_once(labels, i + 1);
        if typedef::repeated_label(labels, i) is None {
            assert(!shared::occurs_before(labels, i));
            assert forall|j: int, k: int| 0 <= j < k < labels.len() && i <= k implies
                #[trigger] labels[j] != #[trigger] labels[k] by {
                if k == i && labels[j] == labels[i] {
                    assert(shared::occurs_before(labels, i));
                }
            }
        }
    }
}

/// The number of checks of a domain from the `i`-th constraint on.
pub open spec fn checks_stated(constraints: Seq<DomainConstraint>, i: int) -> nat
    decreases constraints.len() - i,
{
    if i < 0 || i >= constraints.len() {
        0
    } else {
        checks_stated(constraints, i + 1) + if constraints[i] is Check {
            1nat
        } else {
            0nat
        }
    }
}

/// Whether a check of a domain is a stated one, bound against a value of the domain.
pub open spec fn domain_check(
    c: DomainConstraint,
    made: LogicalCheckConstraintView,
    row: SchemaView,
    cat: CatalogView,
    r: ReadingsView,
) -> bool {
    &&& c matches DomainConstraint::Check { name, expr }
    &&& rules::keeps_name(name, made.name)
    &&& changes::tests(expr, made.expr, row, cat, Seq::empty(), r)
}

/// The checks of a domain are those stated: none is left out and none is added, and
/// those before stay.
pub proof fn domain_checks_are_those_stated(
    domain: Seq<char>,
    constraints: Seq<DomainConstraint>,
    i: int,
    row: SchemaView,
    cat: CatalogView,
    r: ReadingsView,
    acc: Seq<LogicalCheckConstraintView>,
)
    requires
        0 <= i <= constraints.len(),
    ensures
        typedef::domain_checks(domain, constraints, i, row, cat, r, acc) matches Ok(out) ==> {
            &&& acc.is_prefix_of(out)
            &&& out.len() == acc.len() + checks_stated(constraints, i)
            &&& forall|k: int|
                i <= k < constraints.len() && #[trigger] constraints[k] is Check ==> exists|j: int|
                    acc.len() <= j < out.len() && domain_check(
                        constraints[k],
                        #[trigger] out[j],
                        row,
                        cat,
                        r,
                    )
        },
    decreases constraints.len() - i,
{
    if i < constraints.len() {
        if let DomainConstraint::Check { name, expr } = constraints[i] {
            let subject = "CHECK constraint on domain '"@ + domain + "'"@;
            if let Ok(x) = shared::bound_condition(expr, row, cat, r, subject) {
                let made = LogicalCheckConstraintView {
                    name: shared::name_or(name, typedef::domain_check_name(domain, acc.len() + 1)),
                    expr: x,
                };
                let next = acc.push(made);
                domain_checks_are_those_stated(domain, constraints, i + 1, row, cat, r, next);
                if let Ok(out) = typedef::domain_checks(
                    domain,
                    constraints,
                    i + 1,
                    row,
                    cat,
                    r,
                    next,
                ) {
                    assert(out[acc.len() as int] == next[acc.len() as int]);
                    assert(domain_check(
                        constraints[i],
                        out[acc.len() as int],
                        row,
                        cat,
                        r,
                    )) by {
                        reveal(changes::tests);
                    }
                    assert(acc.is_prefix_of(next));
                    assert forall|k: int| 0 <= k < acc.len() implies acc[k] == out[k] by {
                        assert(next[k] == out[k]);
                    }
                    assert(acc.is_prefix_of(out)) by {
                        assert(acc =~= out.subrange(0, acc.len() as int));
                    }
                }
            }
        } else {
            domain_checks_are_those_stated(domain, constraints, i + 1, row, cat, r, acc);
        }
    }
}

/// Whether a domain takes no nulls is what the last of its constraints on nulls
/// says. It takes them where none does.
pub proof fn last_null_constraints_count(constraints: Seq<DomainConstraint>, n: int)
    requires
        0 <= n <= constraints.len(),
    ensures
        (forall|k: int| 0 <= k < n ==> #[trigger] constraints[k] is Check)
            ==> !typedef::refuses_nulls(constraints, n),
        forall|k: int|
            0 <= k < n && !(#[trigger] constraints[k] is Check) && (forall|j: int|
                k < j < n ==> #[trigger] constraints[j] is Check) ==> (typedef::refuses_nulls(
                constraints,
                n,
            ) <==> constraints[k] is NotNull),
    decreases n,
{
    if n > 0 {
        last_null_constraints_count(constraints, n - 1);
        if constraints[n - 1] is Check {
            assert forall|k: int|
                0 <= k < n && !(#[trigger] constraints[k] is Check) && (forall|j: int|
                    k < j < n ==> #[trigger] constraints[j] is Check) implies (
            typedef::refuses_nulls(constraints, n) <==> constraints[k] is NotNull) by {
                assert(k < n - 1);
            }
        }
    }
}

/// A `CREATE DOMAIN` makes the domain of its name over its declared type, with the
/// stated checks on its `value`.
pub proof fn created_domains_are_those_stated(
    s: CreateDomainStmt,
    cat: CatalogView,
    r: ReadingsView,
)
    ensures
        typedef::bound_create_domain(s, cat, r) matches Ok(p) ==> {
            &&& p matches LogicalPlanView::CreateDomain {
                domain_name,
                namespace,
                base_type,
                not_null,
                checks,
                ..
            }
            &&& domain_name == text::lower(names::last_part(s.name))
            &&& objects::in_namespace(s.name, namespace)
            &&& (cat.named_type_in)(namespace, domain_name) is None
            &&& typedef::declared_type_in(s.data_type, cat) == Ok::<_, PlanErrorView>(base_type)
            &&& !(base_type is Domain)
            &&& not_null == typedef::refuses_nulls(s.constraints@, s.constraints@.len() as int)
            &&& checks.len() == checks_stated(s.constraints@, 0)
            &&& forall|k: int|
                0 <= k < s.constraints@.len() && #[trigger] s.constraints@[k] is Check ==> exists|
                    j: int,
                |
                    0 <= j < checks.len() && domain_check(
                        s.constraints@[k],
                        #[trigger] checks[j],
                        value_of(base_type),
                        cat,
                        r,
                    )
        },
{
    if let Ok(base) = typedef::declared_type_in(s.data_type, cat) {
        assert(typedef::value_row(base) == value_of(base));
        domain_checks_are_those_stated(
            names::simple_name(s.name),
            s.constraints@,
            0,
            value_of(base),
            cat,
            r,
            Seq::empty(),
        );
    }
}

/// The row of one `value` of a type.
pub open spec fn value_of(t: DataTypeView) -> SchemaView {
    SchemaView { fields: seq![FieldView { name: "value"@, data_type: t, nullable: true }] }
}

/// A `CREATE OPERATOR` keeps its name, its operand types and its procedure; equality
/// of truth values gives a truth value.
pub proof fn created_operators_are_those_stated(s: CreateOperatorStmt, cat: CatalogView)
    ensures
        typedef::bound_create_operator(s, cat) matches Ok(p) ==> {
            &&& p matches LogicalPlanView::CreateOperator {
                operator_name,
                namespace,
                left_type,
                right_type,
                procedure,
                result_type,
                ..
            }
            &&& operator_name == s.name@ && operator_name.len() > 0
            &&& namespace == "public"@
            &&& procedure == text::lower(names::last_part(s.procedure))
            &&& procedure == "bool_eq"@
            &&& left_type == Some(DataTypeView::Bool) && right_type == Some(DataTypeView::Bool)
            &&& result_type is Bool
            &&& s.left_arg matches Some(t)
            &&& typedef::declared_type_in(t, cat) == Ok::<_, PlanErrorView>(DataTypeView::Bool)
            &&& s.right_arg matches Some(t)
            &&& typedef::declared_type_in(t, cat) == Ok::<_, PlanErrorView>(DataTypeView::Bool)
        },
{
}

} // verus!

//! What bound literals, casts and column references stand for.
use crate::ast::{Literal, ObjectName};
use crate::binder::{meaning, names, sources};
use crate::catalog::CatalogView;
use crate::datatype::DataTypeView;
use crate::dialect::ddl::types;
use crate::dialect::reading::ReadingsView;
use crate::dialect::{clock, coerce, literal, moments, number, operation, typename};
use crate::query::ScalarExprView;
use crate::schema::{FieldView, SchemaView};
use crate::value::ValueView;
use crate::{query, schema, scope, text};
use vstd::prelude::*;

verus! {

/// A literal other than a number with a point and a typed one is the constant that
/// it writes.
pub proof fn plain_literals_are_those_written(lit: Literal, r: ReadingsView)
    requires
        !(lit is Float) && !(lit is Typed),
    ensures
        meaning::writes(lit, literal::literal_value(lit, r)),
{
}

/// The place of a mark in a text is that of its first occurrence.
pub proof fn marks_are_found(s: Seq<char>, mark: char, i: int, at: int)
    requires
        0 <= i <= at < s.len(),
        s[at] == mark,
        forall|k: int| i <= k < at ==> s[k] != mark,
    ensures
        clock::place_of(s, mark, i, s.len() as int) == at,
    decreases at - i,
{
    if i < at {
        marks_are_found(s, mark, i + 1, at);
    }
}

/// A number with a point that fits is its digits, scaled by as many places as stand
/// behind the point.
pub proof fn decimals_are_what_they_write(whole: Seq<char>, frac: Seq<char>)
    requires
        text::all_digits(whole + frac),
        frac.len() <= i32::MAX,
        text::trim(whole + seq!['.'] + frac) == whole + seq!['.'] + frac,
        text::nat_value(whole + frac) <= i64::MAX,
    ensures
        number::decimal_literal(whole + seq!['.'] + frac) == Some(
            (text::nat_value(whole + frac), frac.len() as int),
        ),
{
    let s = whole + seq!['.'] + frac;
    let both = whole + frac;
    assert forall|k: int| 0 <= k < whole.len() implies text::is_digit(#[trigger] s[k]) by {
        assert(text::is_digit(both[k]));
        assert(s[k] == both[k]);
    }
    assert forall|k: int| 0 <= k < frac.len() implies text::is_digit(
        #[trigger] s[whole.len() + 1 + k],
    ) by {
        assert(text::is_digit(both[whole.len() + k]));
        assert(s[whole.len() + 1 + k] == both[whole.len() + k]);
    }
    assert forall|k: int| 0 <= k < s.len() implies s[k] != 'e' && s[k] != 'E' && s[k] != '-'
        && s[k] != '+' by {
        if k > whole.len() {
            assert(s[whole.len() + 1 + (k - whole.len() - 1)] == s[k]);
        }
    }
    marks_are_found(s, '.', 0, whole.len() as int);
    assert(s.skip(whole.len() as int + 1) =~= frac);
    assert(s.take(whole.len() as int) =~= whole);
    digits_are_not_negative(both);
}

/// Digits stand for no negative number.
pub proof fn digits_are_not_negative(s: Seq<char>)
    ensures
        text::all_digits(s) || s.len() == 0 ==> text::nat_value(s) >= 0,
    decreases s.len(),
{
    if s.len() > 0 && text::all_digits(s) {
        assert forall|k: int| 0 <= k < s.drop_last().len() implies text::is_digit(
            #[trigger] s.drop_last()[k],
        ) by {
            assert(s.drop_last()[k] == s[k]);
        }
        digits_are_not_negative(s.drop_last());
    }
}

/// A number with a point is a decimal where it fits one, and else the nearest
/// floating-point number.
pub proof fn numbers_with_points_are_decimals(lit: Literal, r: ReadingsView)
    requires
        lit is Float,
    ensures
        literal::literal_value(lit, r) matches ScalarExprView::Literal { value, data_type } && (
        match number::decimal_literal(lit->Float_text@) {
            Some((n, places)) => {
                &&& value matches ValueView::Decimal { value: v, scale } && v == n as i64 && scale
                    == places as i32
                &&& data_type == (DataTypeView::Decimal {
                    precision: None,
                    scale: Some(places as i32),
                })
            },
            None => value == ValueView::Float64(lit->Float_value@) && data_type is Float64,
        }),
{
}

/// Whether a typed literal has the type of its name: its value is one of the type, or
/// null where its text is none.
pub open spec fn typed_as(name: Seq<char>, value: ValueView, t: DataTypeView) -> bool {
    match t {
        DataTypeView::Date => name == "date"@ && (value is Date || value is Null),
        DataTypeView::Interval => name == "interval"@ && (value is Interval || value is Null),
        DataTypeView::Time => name == "time"@ && (value is Time || value is Null),
        DataTypeView::TimeTz => {
            &&& name == "timetz"@ || name == "time with time zone"@
            &&& value is TimeTz || value is Null
        },
        DataTypeView::Timestamp => name == "timestamp"@ && (value is Timestamp || value is Null),
        DataTypeView::TimestampTz => {
            &&& name == "timestamptz"@ || name == "timestamp with time zone"@
            &&& value is TimestampTz || value is Null
        },
        DataTypeView::Json => name == "json"@ && (value is Json || value is Null),
        DataTypeView::Jsonb => name == "jsonb"@ && (value is Jsonb || value is Null),
        DataTypeView::Xml => name == "xml"@,
        DataTypeView::Money => name == "money"@,
        DataTypeView::Oid => name == "oid"@ && (value is Oid || value is Null),
        DataTypeView::PgLsn => name == "pg_lsn"@ && (value is PgLsn || value is Null),
        DataTypeView::TsVector => name == "tsvector"@ && value is Text,
        DataTypeView::TsQuery => name == "tsquery"@ && value is Text,
        DataTypeView::Bit { .. } => name == "bit"@ && (value is BitString || value is Null),
        DataTypeView::VarBit { .. } => {
            &&& name == "varbit"@ || name == "bit varying"@
            &&& value is BitString || value is Null
        },
        DataTypeView::Inet => name == "inet"@,
        DataTypeView::Cidr => name == "cidr"@,
        DataTypeView::MacAddr => name == "macaddr"@,
        DataTypeView::MacAddr8 => name == "macaddr8"@,
        DataTypeView::Null => value is Null,
        _ => false,
    }
}

/// A typed literal other than a vector has the type of its name, in any case.
pub proof fn typed_literals_have_their_type(
    ty: Seq<char>,
    s: Seq<char>,
    unit: Option<Seq<char>>,
    r: ReadingsView,
)
    requires
        typename::vector_type(text::lower(ty)) is None,
    ensures
        literal::typed_constant(ty, s, unit, r) matches ScalarExprView::Literal {
            value,
            data_type,
        } && typed_as(text::lower(ty), value, data_type),
{
}

/// A constant of searched text keeps its text.
pub proof fn search_literals_keep_their_text(name: Seq<char>, s: Seq<char>, r: ReadingsView)
    ensures
        literal::other_constant(name, s, r) matches ScalarExprView::Literal { value, data_type }
            && (data_type is TsVector || data_type is TsQuery ==> value == ValueView::Text(s)),
{
}

/// Whether a text is a number that can modify a type.
pub open spec fn modifies(d: Seq<char>) -> bool {
    &&& text::all_digits(d) && text::trim(d) == d
    &&& text::nat_value(d) <= u32::MAX
}

proof fn last_modifier_is_read(raw: Seq<char>, i: int, acc: Seq<u32>)
    requires
        0 <= i <= raw.len(),
        modifies(raw.skip(i)),
    ensures
        typename::modifiers_from(raw, i, acc) == Some(
            acc.push(text::nat_value(raw.skip(i)) as u32),
        ),
{
    let d = raw.skip(i);
    assert forall|k: int| i <= k < raw.len() implies raw[k] != ',' by {
        assert(raw[k] == d[k - i]);
        assert(text::is_digit(d[k - i]));
    }
    moments::missing_marks_are_not_found(raw, ',', i, raw.len() as int);
    assert(raw.subrange(i, raw.len() as int) =~= d);
    digits_are_not_negative(d);
}

/// The modifiers of a type stand behind its name in parentheses, and are read in
/// order.
pub proof fn modifiers_are_read_in_order(base: Seq<char>, a: Seq<char>, b: Seq<char>)
    requires
        forall|k: int| 0 <= k < base.len() ==> base[k] != '(',
        modifies(a) && modifies(b),
    ensures
        typename::base_and_modifiers(base + seq!['('] + a + seq![')']) == Some(
            (base, seq![text::nat_value(a) as u32]),
        ),
        typename::base_and_modifiers(base + seq!['('] + a + seq![','] + b + seq![')']) == Some(
            (base, seq![text::nat_value(a) as u32, text::nat_value(b) as u32]),
        ),
{
    let s = base + seq!['('] + a + seq![')'];
    marks_are_found(s, '(', 0, base.len() as int);
    assert(s.subrange(base.len() as int + 1, s.len() - 1) =~= a);
    assert(s.take(base.len() as int) =~= base);
    assert(a.skip(0) =~= a);
    last_modifier_is_read(a, 0, Seq::empty());
    assert(Seq::<u32>::empty().push(text::nat_value(a) as u32) =~= seq![
        text::nat_value(a) as u32,
    ]);
    let t = base + seq!['('] + a + seq![','] + b + seq![')'];
    let raw = a + seq![','] + b;
    marks_are_found(t, '(', 0, base.len() as int);
    assert(t.subrange(base.len() as int + 1, t.len() - 1) =~= raw);
    assert(t.take(base.len() as int) =~= base);
    assert forall|k: int| 0 <= k < a.len() implies raw[k] != ',' by {
        assert(raw[k] == a[k]);
        assert(text::is_digit(a[k]));
    }
    marks_are_found(raw, ',', 0, a.len() as int);
    assert(raw.subrange(0, a.len() as int) =~= a);
    digits_are_not_negative(a);
    assert(raw.skip(a.len() as int + 1) =~= b);
    let one = Seq::<u32>::empty().push(text::nat_value(a) as u32);
    last_modifier_is_read(raw, a.len() as int + 1, one);
    assert(one.push(text::nat_value(b) as u32) =~= seq![
        text::nat_value(a) as u32,
        text::nat_value(b) as u32,
    ]);
}

/// The dimensions of a vector type stand behind its name in parentheses, and are no
/// more than it can have.
pub proof fn dimensions_are_read(base: Seq<char>, d: Seq<char>)
    requires
        text::all_digits(d),
        1 <= text::nat_value(d) <= 16_000,
    ensures
        typename::family_of(base + seq!['('] + d + seq![')'], base) == Some(
            typename::family_type(base, Some(text::nat_value(d) as u32)),
        ),
        typename::family_of(base, base) == Some(typename::family_type(base, None)),
{
    let s = base + seq!['('] + d + seq![')'];
    assert(s.take(base.len() as int) =~= base);
    assert(s.subrange(base.len() as int + 1, s.len() - 1) =~= d);
    assert(s.len() != base.len());
}

/// A vector type is the one of its name, with its dimensions.
pub proof fn vector_types_have_their_names(base: Seq<char>, dims: Option<u32>)
    ensures
        typename::family_type(base, dims) matches Some(t) ==> match t {
            DataTypeView::Vector { dims: kept } => base == "vector"@ && kept == dims,
            DataTypeView::HalfVec { dims: kept } => base == "halfvec"@ && kept == dims,
            DataTypeView::SparseVec { dims: kept } => base == "sparsevec"@ && kept == dims,
            DataTypeView::BitVec { dims: kept } => base == "bitvec"@ && kept == dims,
            _ => false,
        },
{
}

/// Whether a text names a type to cast to: by its name alone, or by its name with
/// modifiers in parentheses.
pub open spec fn casts_to(s: Seq<char>, t: DataTypeView) -> bool {
    ||| types::names_type(s, Seq::empty(), t)
    ||| typename::base_and_modifiers(s) matches Some((base, m)) && types::names_type(base, m, t)
    ||| t is TsVector && s == "tsvector"@
    ||| t is TsQuery && s == "tsquery"@
    ||| t is Oid && s == "regnamespace"@
}

/// A cast other than to a vector is to the type of its name, in any case.
pub proof fn casts_are_to_named_types(s: Seq<char>)
    requires
        typename::vector_type(text::lower(s)) is None,
    ensures
        typename::cast_type(s) matches Some(t) ==> casts_to(text::lower(s), t),
{
}

/// The name of the function that casts to a type when it runs.
pub open spec fn cast_name(t: DataTypeView) -> Seq<char> {
    match t {
        DataTypeView::Text { .. } => "__ultrasql_cast_text"@,
        DataTypeView::Bool => "__ultrasql_cast_bool"@,
        DataTypeView::Date => "__ultrasql_cast_date"@,
        DataTypeView::Time => "__ultrasql_cast_time"@,
        DataTypeView::TimeTz => "__ultrasql_cast_timetz"@,
        DataTypeView::Timestamp => "__ultrasql_cast_timestamp"@,
        DataTypeView::TimestampTz => "__ultrasql_cast_timestamptz"@,
        DataTypeView::Uuid => "__ultrasql_cast_uuid"@,
        DataTypeView::Json => "__ultrasql_cast_json"@,
        DataTypeView::Jsonb => "__ultrasql_cast_jsonb"@,
        DataTypeView::Xml => "__ultrasql_cast_xml"@,
        DataTypeView::Oid => "__ultrasql_cast_oid"@,
        DataTypeView::RegClass => "__ultrasql_cast_regclass"@,
        DataTypeView::RegType => "__ultrasql_cast_regtype"@,
        DataTypeView::Int16 => "__ultrasql_cast_int2"@,
        DataTypeView::Int32 => "__ultrasql_cast_int4"@,
        DataTypeView::Int64 => "__ultrasql_cast_int8"@,
        DataTypeView::Float32 => "__ultrasql_cast_float4"@,
        DataTypeView::Float64 => "__ultrasql_cast_float8"@,
        DataTypeView::Money => "__ultrasql_cast_money"@,
        _ => "__ultrasql_cast_numeric"@,
    }
}

/// Whether an expression is another one cast to a type: a parameter takes the type,
/// what has the type already or is null stays as it is, and everything else is
/// handed to the function of the type.
pub open spec fn cast_of(e: ScalarExprView, x: ScalarExprView, t: DataTypeView) -> bool {
    match e {
        ScalarExprView::Parameter { index, .. } => x == (ScalarExprView::Parameter {
            index,
            data_type: t,
        }),
        _ => {
            ||| x == e && (query::scalar_type(e) is Null || typename::cast_done(
                t,
                query::scalar_type(e),
            ))
            ||| {
                &&& x matches ScalarExprView::FunctionCall { name, args, data_type }
                &&& name == cast_name(t)
                &&& args.len() > 0 && args[0] == e
                &&& !(t is Decimal) ==> args.len() == 1 && data_type == t
                &&& t matches DataTypeView::Decimal { precision, scale } ==> {
                    &&& args.len() == 3 && data_type is Decimal
                    &&& precision is Some || scale is Some ==> data_type == t
                    &&& scale matches Some(k) ==> (args[2] matches ScalarExprView::Literal {
                        value,
                        ..
                    } && value == ValueView::Int32(k))
                    &&& scale is None ==> (args[2] matches ScalarExprView::Literal { value, .. }
                        && value is Null)
                }
            }
        },
    }
}

/// A cast that runs is that of its operand to its type.
pub proof fn casts_keep_their_operand(e: ScalarExprView, t: DataTypeView)
    ensures
        operation::cast_rest(e, t) matches Ok(x) ==> cast_of(e, x, t),
{
}

/// A cast of what is no literal, but for a sign, is that of its operand to its type.
pub proof fn computed_casts_keep_their_operand(
    e: ScalarExprView,
    t: DataTypeView,
    cat: CatalogView,
    r: ReadingsView,
)
    requires
        !(number::sign_folded(e) is Literal),
        coerce::coerced(e, t, r) == e,
    ensures
        operation::cast_operation(e, t, cat, r) matches Ok(x) ==> cast_of(e, x, t),
{
    casts_keep_their_operand(e, t);
    assert(number::sign_folded(e) == e);
}

/// Whether the elements of an array are constants of its type, in order.
pub open spec fn holds_each(
    list: Seq<ScalarExprView>,
    n: int,
    t: DataTypeView,
    r: ReadingsView,
    values: Seq<ValueView>,
) -> bool {
    &&& values.len() == n
    &&& forall|k: int|
        0 <= k < n ==> (coerce::coerced(list[k], t, r) matches ScalarExprView::Literal {
            value,
            ..
        } && #[trigger] values[k] == value)
}

proof fn elements_are_those_listed(
    list: Seq<ScalarExprView>,
    i: int,
    acc: Seq<ValueView>,
    t: DataTypeView,
    r: ReadingsView,
)
    requires
        0 <= i <= list.len(),
        holds_each(list, i, t, r, acc),
    ensures
        operation::element_values(list, i, acc, t, r) matches Ok(out) ==> holds_each(
            list,
            list.len() as int,
            t,
            r,
            out,
        ),
    decreases list.len() - i,
{
    if i < list.len() {
        if let ScalarExprView::Literal { value, .. } = coerce::coerced(list[i], t, r) {
            let next = acc.push(value);
            assert forall|k: int| 0 <= k < i + 1 implies (coerce::coerced(list[k], t, r) matches
                ScalarExprView::Literal { value, .. } && #[trigger] next[k] == value) by {
                if k < i {
                    assert(next[k] == acc[k]);
                }
            }
            elements_are_those_listed(list, i + 1, next, t, r);
        }
    }
}

/// An array holds its listed elements in order, as values of one type.
pub proof fn arrays_hold_their_elements(
    list: Seq<ScalarExprView>,
    t: Option<DataTypeView>,
    r: ReadingsView,
)
    ensures
        operation::array_constant(list, t, r) matches Ok(x) ==> {
            &&& x matches ScalarExprView::Literal { value, data_type }
            &&& value matches ValueView::Array { element_type, elements }
            &&& t matches Some(u) ==> element_type == u
            &&& t is None ==> element_type is Null
            &&& data_type matches DataTypeView::Array(inner) && *inner == element_type
            &&& holds_each(list, list.len() as int, element_type, r, elements)
        },
{
    let u = match t {
        Some(u) => u,
        None => DataTypeView::Null,
    };
    elements_are_those_listed(list, 0, Seq::empty(), u, r);
}

/// Whether a name ends in a column's name, behind a point.
pub open spec fn ends_with(s: Seq<char>, col: Seq<char>) -> bool {
    exists|p: int|
        {
            &&& 0 <= p < s.len() && #[trigger] s[p] == '.'
            &&& forall|k: int| p < k < s.len() ==> s[k] != '.'
            &&& text::same_fold(s.subrange(p + 1, s.len() as int), col)
        }
}

proof fn last_points_are_found(s: Seq<char>, n: int)
    requires
        0 <= n <= s.len(),
    ensures
        match operation::last_point(s, n) {
            Some(p) => {
                &&& 0 <= p < n && s[p] == '.'
                &&& forall|k: int| p < k < n ==> s[k] != '.'
            },
            None => forall|k: int| 0 <= k < n ==> s[k] != '.',
        },
    decreases n,
{
    if n > 0 {
        last_points_are_found(s, n - 1);
    }
}

/// A qualified name ends in what stands behind its last point.
pub proof fn names_end_behind_their_last_point(s: Seq<char>, col: Seq<char>)
    ensures
        operation::ends_in(s, col) <==> ends_with(s, col),
{
    last_points_are_found(s, s.len() as int);
    if ends_with(s, col) {
        let p = choose|p: int|
            {
                &&& 0 <= p < s.len() && #[trigger] s[p] == '.'
                &&& forall|k: int| p < k < s.len() ==> s[k] != '.'
                &&& text::same_fold(s.subrange(p + 1, s.len() as int), col)
            };
        assert(operation::last_point(s, s.len() as int) == Some(p));
    }
}

/// Whether an expression is the column of a row that a name refers to, or that of an
/// enclosing query where the row has none.
pub open spec fn stands_for(
    name: Seq<char>,
    x: ScalarExprView,
    row: SchemaView,
    rows: Seq<SchemaView>,
) -> bool {
    match x {
        ScalarExprView::Column { name: kept, index, data_type } => exists|i: int|
            {
                &&& #[trigger] sources::first_named(row, i, name)
                &&& index == i as usize
                &&& kept == row.fields[i].name && data_type == row.fields[i].data_type
            },
        ScalarExprView::OuterColumn { name: kept, frame_depth, column_index, data_type } => {
            &&& forall|j: int|
                0 <= j < row.fields.len() ==> !text::same_fold(
                    (#[trigger] row.fields[j]).name,
                    name,
                )
            &&& kept == name
            &&& meaning::outer_named(rows, name, frame_depth, column_index, data_type)
        },
        _ => false,
    }
}

/// Whether an expression is the one column of a row whose qualified name ends in a
/// name.
pub open spec fn stands_for_suffix(
    col: Seq<char>,
    x: ScalarExprView,
    row: SchemaView,
) -> bool {
    &&& x matches ScalarExprView::Column { name, index, data_type }
    &&& name == col
    &&& exists|i: int|
        {
            &&& 0 <= i < row.fields.len() && index == i as usize
            &&& operation::ends_in((#[trigger] row.fields[i]).name, col)
            &&& data_type == row.fields[i].data_type
            &&& forall|j: int|
                0 <= j < row.fields.len() && j != i ==> !operation::ends_in(
                    (#[trigger] row.fields[j]).name,
                    col,
                )
        }
}

proof fn suffixes_are_found(fields: Seq<FieldView>, col: Seq<char>, i: int)
    requires
        0 <= i,
    ensures
        match operation::suffix_from(fields, col, i) {
            Some(k) => {
                &&& i <= k < fields.len() && operation::ends_in(fields[k].name, col)
                &&& forall|j: int|
                    i <= j < k ==> !operation::ends_in((#[trigger] fields[j]).name, col)
            },
            None => forall|j: int|
                i <= j < fields.len() ==> !operation::ends_in((#[trigger] fields[j]).name, col),
        },
    decreases fields.len() - i,
{
    if i < fields.len() {
        suffixes_are_found(fields, col, i + 1);
    }
}

/// A column reference of one part is the one column of its name in its row, or the
/// one whose qualified name ends in it, or else the innermost of its name in the
/// enclosing queries. Where there is no row it may be a value of the session.
pub proof fn simple_columns_are_those_named(
    col: Seq<char>,
    alone: bool,
    row: SchemaView,
    rows: Seq<SchemaView>,
)
    ensures
        operation::simple_column(col, alone, row, rows) matches Ok(x) ==> {
            ||| stands_for(col, x, row, rows)
            ||| stands_for_suffix(col, x, row)
            ||| {
                &&& row.fields.len() == 0 && alone
                &&& x matches ScalarExprView::FunctionCall { name, args, data_type }
                &&& name == col && args.len() == 0 && data_type is Text
            }
        },
{
    schema::find_gives_first(row.fields, col, 0);
    suffixes_are_found(row.fields, col, 0);
    meaning::outer_names_are_innermost(rows, col, 0);
    if let Some(i) = schema::find_field(row, col) {
        assert(sources::first_named(row, i, col));
    } else {
        if let Some(i) = operation::suffix_from(row.fields, col, 0) {
            suffixes_are_found(row.fields, col, i + 1);
            if operation::suffix_from(row.fields, col, i + 1) is None {
                let x = ScalarExprView::Column {
                    name: col,
                    index: i as usize,
                    data_type: row.fields[i].data_type,
                };
                assert(operation::ends_in(row.fields[i].name, col));
                assert forall|j: int| 0 <= j < row.fields.len() && j != i implies
                    !operation::ends_in((#[trigger] row.fields[j]).name, col) by {}
                assert(stands_for_suffix(col, x, row));
            }
        }
    }
}

/// A qualified column reference is the column of its qualified name in its row or in
/// an enclosing query, where there is one. Otherwise it is what its last part alone
/// refers to, but for a row with another column of that name under a qualifier.
pub proof fn qualified_columns_are_those_named(
    name: ObjectName,
    row: SchemaView,
    rows: Seq<SchemaView>,
)
    requires
        name.parts@.len() >= 2,
    ensures
        operation::resolved_column(name, row, rows) matches Ok(x) ==> {
            let n = name.parts@.len() as int;
            let full = name.parts@[n - 2].value@ + "."@ + name.parts@[n - 1].value@;
            ||| stands_for(full, x, row, rows)
            ||| {
                &&& stands_for(names::last_part(name), x, row, rows)
                &&& forall|j: int|
                    0 <= j < row.fields.len() ==> {
                        &&& !text::same_fold((#[trigger] row.fields[j]).name, full)
                        &&& !operation::ends_in(row.fields[j].name, names::last_part(name))
                    }
            }
        },
{
    let n = name.parts@.len() as int;
    let full = name.parts@[n - 2].value@ + "."@ + name.parts@[n - 1].value@;
    let col = names::last_part(name);
    schema::find_gives_first(row.fields, full, 0);
    meaning::outer_names_are_innermost(rows, full, 0);
    suffixes_are_found(row.fields, col, 0);
    simple_columns_are_those_named(col, false, row, rows);
    if let Some(i) = schema::find_field(row, full) {
        assert(sources::first_named(row, i, full));
    } else if scope::resolve_outer(rows, full) is None && operation::suffix_from(
        row.fields,
        col,
        0,
    ) is None {
        if let Ok(x) = operation::simple_column(col, false, row, rows) {
            assert(!stands_for_suffix(col, x, row));
        }
    }
}

} // verus!

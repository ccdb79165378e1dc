//! Columns of joins, set operations, aliases and wildcards.
use crate::ast::{Identifier, JoinOp, SetOp, SetQuantifier};
use crate::datatype;
use crate::datatype::{DataType, DataTypeView};
use crate::error::{schema_or_mismatch, PlanError, PlanErrorView};
use crate::query::{
    LogicalJoinType, LogicalSetOp, LogicalSetQuantifier, QueryPlan, QueryPlanView, ScalarExpr,
    ScalarExprView,
};
use crate::schema;
use crate::schema::{name_taken, Field, FieldView, Schema, SchemaView};
use crate::text::{cat2, cat3, cat4, eq_fold, show_usize};
use crate::{error, query, text};
use vstd::prelude::*;

verus! {

/// A column that a `FROM` item offers: the name it can be qualified by, its
/// position in the row, and the column itself.
#[derive(Debug, PartialEq)]
pub struct ScopeEntry {
    pub qualifier: String,
    pub field_index: usize,
    pub field: Field,
}

/// The model of a [`ScopeEntry`].
pub struct ScopeEntryView {
    pub qualifier: Seq<char>,
    pub field_index: usize,
    pub field: FieldView,
}

impl ScopeEntry {
    pub open spec fn view(&self) -> ScopeEntryView {
        ScopeEntryView {
            qualifier: self.qualifier@,
            field_index: self.field_index,
            field: self.field@,
        }
    }
}

/// The models of offered columns.
pub open spec fn entries_view(s: Seq<ScopeEntry>) -> Seq<ScopeEntryView> {
    Seq::new(s.len(), |i: int| s[i]@)
}

/// Whether offered columns stand in a row of the given width.
pub open spec fn stand_within(entries: Seq<ScopeEntryView>, width: nat) -> bool {
    forall|i: int| 0 <= i < entries.len() ==> (#[trigger] entries[i]).field_index < width
}

/// The columns of one `FROM` item under one qualifier.
pub open spec fn entries_of(qualifier: Seq<char>, s: SchemaView) -> Seq<ScopeEntryView> {
    Seq::new(
        s.fields.len(),
        |i: int| ScopeEntryView { qualifier, field_index: i as usize, field: s.fields[i] },
    )
}

/// The columns of one `FROM` item under one qualifier.
pub fn offer_columns(qualifier: &str, s: &Schema) -> (out: Vec<ScopeEntry>)
    ensures
        entries_view(out@) == entries_of(qualifier@, s@),
        stand_within(entries_view(out@), s@.fields.len()),
{
    let mut out: Vec<ScopeEntry> = Vec::new();
    let mut i: usize = 0;
    while i < s.fields.len()
        invariant
            i <= s.fields.len(),
            out.len() == i,
            forall|j: int| 0 <= j < i ==> (#[trigger] out@[j])@ == entries_of(qualifier@, s@)[j],
        decreases s.fields.len() - i,
    {
        out.push(
            ScopeEntry {
                qualifier: qualifier.to_owned(),
                field_index: i,
                field: s.fields[i].duplicate(),
            },
        );
        i = i + 1;
    }
    assert(entries_view(out@) =~= entries_of(qualifier@, s@));
    out
}

/// The columns of two `FROM` items side by side; those on the right stand
/// behind the `width` columns of the left row.
pub open spec fn merged_entries(
    left: Seq<ScopeEntryView>,
    right: Seq<ScopeEntryView>,
    width: nat,
) -> Seq<ScopeEntryView> {
    left + Seq::new(
        right.len(),
        |i: int|
            ScopeEntryView {
                qualifier: right[i].qualifier,
                field_index: (right[i].field_index + width) as usize,
                field: right[i].field,
            },
    )
}

/// Puts the columns of two `FROM` items side by side.
pub fn merge_scopes(left: Vec<ScopeEntry>, right: Vec<ScopeEntry>, left_len: usize) -> (out: Vec<
    ScopeEntry,
>)
    requires
        forall|i: int|
            0 <= i < right@.len() ==> (#[trigger] right@[i]).field_index + left_len <= usize::MAX,
    ensures
        entries_view(out@) == merged_entries(
            entries_view(left@),
            entries_view(right@),
            left_len as nat,
        ),
{
    let mut out = left;
    let ghost start = out@;
    let ghost wanted = merged_entries(entries_view(start), entries_view(right@), left_len as nat);
    let mut i: usize = 0;
    while i < right.len()
        invariant
            i <= right.len(),
            wanted == merged_entries(entries_view(start), entries_view(right@), left_len as nat),
            forall|k: int|
                0 <= k < right@.len() ==> (#[trigger] right@[k]).field_index + left_len
                    <= usize::MAX,
            out.len() == start.len() + i,
            forall|j: int| 0 <= j < start.len() ==> (#[trigger] out@[j]) == start[j],
            forall|j: int|
                start.len() <= j < start.len() + i ==> (#[trigger] out@[j])@ == wanted[j],
        decreases right.len() - i,
    {
        out.push(
            ScopeEntry {
                qualifier: right[i].qualifier.clone(),
                field_index: right[i].field_index + left_len,
                field: right[i].field.duplicate(),
            },
        );
        i = i + 1;
    }
    assert(entries_view(out@) =~= wanted);
    out
}

/// A column of a row as an expression.
pub open spec fn column_at(s: SchemaView, i: int) -> ScalarExprView {
    ScalarExprView::Column {
        name: s.fields[i].name,
        index: i as usize,
        data_type: s.fields[i].data_type,
    }
}

/// A column of a row as an expression.
pub fn column_of(s: &Schema, i: usize) -> (out: ScalarExpr)
    requires
        i < s@.fields.len(),
    ensures
        out@ == column_at(s@, i as int),
{
    ScalarExpr::Column {
        name: s.fields[i].name.clone(),
        index: i,
        data_type: s.fields[i].data_type.duplicate(),
    }
}

/// All columns of a row under their own names.
pub open spec fn all_columns(s: SchemaView) -> Seq<(ScalarExprView, Seq<char>)> {
    Seq::new(s.fields.len(), |i: int| (column_at(s, i), s.fields[i].name))
}

/// Appends all columns of a row under their own names.
pub fn push_all_columns(s: &Schema, out: &mut Vec<(ScalarExpr, String)>)
    ensures
        query::outputs_view(final(out)@) == query::outputs_view(old(out)@) + all_columns(s@),
{
    let mut i: usize = 0;
    let ghost start = query::outputs_view(out@);
    assert(start + all_columns(s@).take(0) =~= start);
    while i < s.fields.len()
        invariant
            i <= s.fields.len(),
            query::outputs_view(out@) == start + all_columns(s@).take(i as int),
        decreases s.fields.len() - i,
    {
        let item = (column_of(s, i), s.fields[i].name.clone());
        proof {
            query::lemma_outputs_push(out@, item);
            assert(start + all_columns(s@).take(i + 1) =~= (start + all_columns(s@).take(
                i as int,
            )).push((item.0@, item.1@)));
        }
        out.push(item);
        i = i + 1;
    }
    assert(all_columns(s@).take(i as int) =~= all_columns(s@));
}

/// An offered column as an expression under its own name.
pub open spec fn entry_output(e: ScopeEntryView) -> (ScalarExprView, Seq<char>) {
    (
        ScalarExprView::Column {
            name: e.field.name,
            index: e.field_index,
            data_type: e.field.data_type,
        },
        e.field.name,
    )
}

/// The offered columns from `i` on whose qualifier is the given one, or all of
/// them where none is given.
pub open spec fn qualified_columns(
    entries: Seq<ScopeEntryView>,
    qualifier: Option<Seq<char>>,
    i: int,
) -> Seq<(ScalarExprView, Seq<char>)>
    decreases entries.len() - i,
{
    if i < 0 || i >= entries.len() {
        Seq::empty()
    } else if qualifier is None || text::same_fold(entries[i].qualifier, qualifier->Some_0) {
        seq![entry_output(entries[i])] + qualified_columns(entries, qualifier, i + 1)
    } else {
        qualified_columns(entries, qualifier, i + 1)
    }
}

/// Appends the offered columns with the given qualifier, or all of them, and
/// tells how many there were.
pub fn push_qualified(
    entries: &Vec<ScopeEntry>,
    qualifier: Option<&str>,
    out: &mut Vec<(ScalarExpr, String)>,
) -> (any: bool)
    ensures
        ({
            let q = match qualifier {
                Some(s) => Some(s@),
                None => None,
            };
            let added = qualified_columns(entries_view(entries@), q, 0);
            &&& query::outputs_view(final(out)@) == query::outputs_view(old(out)@) + added
            &&& any == (added.len() > 0)
        }),
{
    let ghost q = match qualifier {
        Some(s) => Some(s@),
        None => None,
    };
    let ghost model = entries_view(entries@);
    let ghost start = query::outputs_view(out@);
    let mut i: usize = 0;
    let mut any = false;
    assert(query::outputs_view(out@) + qualified_columns(model, q, 0) =~= start
        + qualified_columns(model, q, 0));
    while i < entries.len()
        invariant
            i <= entries.len(),
            model == entries_view(entries@),
            q == (match qualifier {
                Some(s) => Some(s@),
                None => None,
            }),
            query::outputs_view(out@) + qualified_columns(model, q, i as int) == start
                + qualified_columns(model, q, 0),
            any == (qualified_columns(model, q, 0).len() > qualified_columns(
                model,
                q,
                i as int,
            ).len()),
            qualified_columns(model, q, i as int).len() <= qualified_columns(model, q, 0).len(),
        decreases entries.len() - i,
    {
        let wanted = match qualifier {
            Some(s) => eq_fold(entries[i].qualifier.as_str(), s),
            None => true,
        };
        if wanted {
            let item = (
                ScalarExpr::Column {
                    name: entries[i].field.name.clone(),
                    index: entries[i].field_index,
                    data_type: entries[i].field.data_type.duplicate(),
                },
                entries[i].field.name.clone(),
            );
            proof {
                query::lemma_outputs_push(out@, item);
                assert((item.0@, item.1@) == entry_output(model[i as int]));
                assert(query::outputs_view(out@).push(entry_output(model[i as int]))
                    + qualified_columns(model, q, i + 1) =~= query::outputs_view(out@)
                    + qualified_columns(model, q, i as int));
            }
            out.push(item);
            any = true;
        }
        i = i + 1;
    }
    assert(query::outputs_view(out@) =~= start + qualified_columns(model, q, 0));
    any
}

/// A join made explicit.
pub open spec fn join_type_of(op: JoinOp) -> LogicalJoinType {
    match op {
        JoinOp::Inner => LogicalJoinType::Inner,
        JoinOp::LeftOuter => LogicalJoinType::LeftOuter,
        JoinOp::RightOuter => LogicalJoinType::RightOuter,
        JoinOp::FullOuter => LogicalJoinType::FullOuter,
        JoinOp::Cross => LogicalJoinType::Cross,
    }
}

pub fn logical_join_type(op: JoinOp) -> (t: LogicalJoinType)
    ensures
        t == join_type_of(op),
{
    match op {
        JoinOp::Inner => LogicalJoinType::Inner,
        JoinOp::LeftOuter => LogicalJoinType::LeftOuter,
        JoinOp::RightOuter => LogicalJoinType::RightOuter,
        JoinOp::FullOuter => LogicalJoinType::FullOuter,
        JoinOp::Cross => LogicalJoinType::Cross,
    }
}

/// Whether a join fills the left columns with nulls for unmatched rows.
pub open spec fn nulls_left(t: LogicalJoinType) -> bool {
    t is RightOuter || t is FullOuter
}

/// Whether a join fills the right columns with nulls for unmatched rows.
pub open spec fn nulls_right(t: LogicalJoinType) -> bool {
    t is LeftOuter || t is FullOuter
}

/// The column made nullable where `force` says so.
pub open spec fn with_nulls(f: FieldView, force: bool) -> FieldView {
    FieldView { name: f.name, data_type: f.data_type, nullable: f.nullable || force }
}

/// Whether a schema has a column of the given name up to case.
pub open spec fn has_name(s: SchemaView, name: Seq<char>) -> bool {
    exists|j: int| 0 <= j < s.fields.len() && text::same_fold(#[trigger] s.fields[j].name, name)
}

/// A right-hand column of a join: it gets the suffix `_1` when the left-hand
/// side has a column of its name.
pub open spec fn right_field(left: SchemaView, f: FieldView, force: bool) -> FieldView {
    FieldView {
        name: if has_name(left, f.name) {
            f.name + "_1"@
        } else {
            f.name
        },
        data_type: f.data_type,
        nullable: f.nullable || force,
    }
}

/// The columns of a join: those of the left side, then those of the right side.
pub open spec fn joined_fields(
    left: SchemaView,
    right: SchemaView,
    force_left: bool,
    force_right: bool,
) -> Seq<FieldView> {
    Seq::new(left.fields.len(), |i: int| with_nulls(left.fields[i], force_left)) + Seq::new(
        right.fields.len(),
        |i: int| right_field(left, right.fields[i], force_right),
    )
}

/// The schema of a join of the given type without `USING`.
pub open spec fn join_schema(left: SchemaView, right: SchemaView, t: LogicalJoinType) -> Result<
    SchemaView,
    PlanErrorView,
> {
    error::labelled_schema(
        "join schema: "@,
        joined_fields(left, right, nulls_left(t), nulls_right(t)),
    )
}

/// The schema of a join without `USING`, under the null rules of its type.
pub fn concat_schemas_for_join(left: &Schema, right: &Schema, join_type: LogicalJoinType) -> (made:
    Result<Schema, PlanError>)
    ensures
        error::schema_outcome(made) == join_schema(left@, right@, join_type),
{
    let force_left = matches!(join_type, LogicalJoinType::RightOuter | LogicalJoinType::FullOuter);
    let force_right = matches!(join_type, LogicalJoinType::LeftOuter | LogicalJoinType::FullOuter);
    let ghost wanted = joined_fields(left@, right@, force_left, force_right);
    let mut fields: Vec<Field> = Vec::new();
    let mut i: usize = 0;
    while i < left.fields.len()
        invariant
            i <= left.fields.len(),
            wanted == joined_fields(left@, right@, force_left, force_right),
            fields.len() == i,
            forall|j: int| 0 <= j < i ==> (#[trigger] fields@[j])@ == wanted[j],
        decreases left.fields.len() - i,
    {
        let f = &left.fields[i];
        fields.push(
            Field {
                name: f.name.clone(),
                data_type: f.data_type.duplicate(),
                nullable: f.nullable || force_left,
            },
        );
        i = i + 1;
    }
    let mut k: usize = 0;
    while k < right.fields.len()
        invariant
            k <= right.fields.len(),
            wanted == joined_fields(left@, right@, force_left, force_right),
            fields.len() == left.fields.len() + k,
            forall|j: int| 0 <= j < left.fields.len() + k ==> (#[trigger] fields@[j])@ == wanted[j],
        decreases right.fields.len() - k,
    {
        let f = &right.fields[k];
        let taken = name_taken(&left.fields, left.fields.len(), f.name.as_str());
        let name = if taken {
            cat2(f.name.as_str(), "_1")
        } else {
            f.name.clone()
        };
        assert(taken == has_name(left@, f.name@));
        let made = Field {
            name,
            data_type: f.data_type.duplicate(),
            nullable: f.nullable || force_right,
        };
        assert(made@ == right_field(left@, right@.fields[k as int], force_right));
        fields.push(made);
        k = k + 1;
    }
    assert(schema::fields_view(fields@) =~= wanted);
    schema_or_mismatch("join schema: ", fields)
}

/// The schema of a join that keeps the nullability of both sides.
pub fn concat_schemas_cross(left: &Schema, right: &Schema) -> (made: Result<Schema, PlanError>)
    ensures
        error::schema_outcome(made) == join_schema(left@, right@, LogicalJoinType::Cross),
{
    concat_schemas_for_join(left, right, LogicalJoinType::Cross)
}

/// The pairs of columns that a `USING` list joins, from the `i`-th name on: the
/// first column of each name on either side.
pub open spec fn using_pairs(
    cols: Seq<Identifier>,
    i: int,
    acc: Seq<(usize, usize)>,
    left: SchemaView,
    right: SchemaView,
) -> Result<Seq<(usize, usize)>, PlanErrorView>
    decreases cols.len() - i,
{
    if i < 0 || i >= cols.len() {
        Ok(acc)
    } else {
        match (schema::find_field(left, cols[i].value@), schema::find_field(right, cols[i].value@)) {
            (Some(l), Some(r)) => using_pairs(
                cols,
                i + 1,
                acc.push((l as usize, r as usize)),
                left,
                right,
            ),
            _ => Err(PlanErrorView::ColumnNotFound(cols[i].value@)),
        }
    }
}

/// Resolves the names of a `USING` list on both sides of a join.
pub fn resolve_using_pairs(cols: &Vec<Identifier>, left: &Schema, right: &Schema) -> (made: Result<
    Vec<(usize, usize)>,
    PlanError,
>)
    ensures
        error::list_outcome(made) == using_pairs(cols@, 0, Seq::empty(), left@, right@),
        made matches Ok(pairs) ==> forall|k: int|
            0 <= k < pairs@.len() ==> (#[trigger] pairs@[k]).0 < left@.fields.len() && pairs@[k].1
                < right@.fields.len(),
{
    let mut pairs: Vec<(usize, usize)> = Vec::new();
    let mut i: usize = 0;
    assert(pairs@ =~= Seq::empty());
    while i < cols.len()
        invariant
            i <= cols.len(),
            using_pairs(cols@, i as int, pairs@, left@, right@) == using_pairs(
                cols@,
                0,
                Seq::empty(),
                left@,
                right@,
            ),
            forall|k: int|
                0 <= k < pairs@.len() ==> (#[trigger] pairs@[k]).0 < left@.fields.len()
                    && pairs@[k].1 < right@.fields.len(),
        decreases cols.len() - i,
    {
        let name = cols[i].value.as_str();
        match (left.find(name), right.find(name)) {
            (Some(l), Some(r)) => {
                pairs.push((l, r));
            },
            _ => {
                return Err(PlanError::ColumnNotFound(cols[i].value.clone()));
            },
        }
        i = i + 1;
    }
    Ok(pairs)
}

/// Whether a left column is one of the joined pairs.
pub open spec fn used_left(pairs: Seq<(usize, usize)>, i: int) -> bool {
    exists|k: int| 0 <= k < pairs.len() && (#[trigger] pairs[k]).0 == i
}

/// Whether a right column is one of the joined pairs.
pub open spec fn used_right(pairs: Seq<(usize, usize)>, i: int) -> bool {
    exists|k: int| 0 <= k < pairs.len() && (#[trigger] pairs[k]).1 == i
}

/// The left columns from `i` on that are in no pair.
pub open spec fn left_rest(
    fields: Seq<FieldView>,
    pairs: Seq<(usize, usize)>,
    force: bool,
    i: int,
) -> Seq<FieldView>
    decreases fields.len() - i,
{
    if i < 0 || i >= fields.len() {
        Seq::empty()
    } else if used_left(pairs, i) {
        left_rest(fields, pairs, force, i + 1)
    } else {
        seq![with_nulls(fields[i], force)] + left_rest(fields, pairs, force, i + 1)
    }
}

/// The right columns from `i` on that are in no pair.
pub open spec fn right_rest(
    fields: Seq<FieldView>,
    pairs: Seq<(usize, usize)>,
    force: bool,
    i: int,
) -> Seq<FieldView>
    decreases fields.len() - i,
{
    if i < 0 || i >= fields.len() {
        Seq::empty()
    } else if used_right(pairs, i) {
        right_rest(fields, pairs, force, i + 1)
    } else {
        seq![with_nulls(fields[i], force)] + right_rest(fields, pairs, force, i + 1)
    }
}

/// The columns of a `USING` join: each joined column once, as on the left side,
/// then the other left columns, then the other right columns.
pub open spec fn using_fields(
    left: SchemaView,
    right: SchemaView,
    pairs: Seq<(usize, usize)>,
    t: LogicalJoinType,
) -> Seq<FieldView> {
    Seq::new(
        pairs.len(),
        |k: int| with_nulls(left.fields[pairs[k].0 as int], t is FullOuter),
    ) + left_rest(left.fields, pairs, nulls_left(t), 0) + right_rest(
        right.fields,
        pairs,
        nulls_right(t),
        0,
    )
}

/// The schema of a `USING` join.
pub open spec fn using_schema(
    left: SchemaView,
    right: SchemaView,
    pairs: Seq<(usize, usize)>,
    t: LogicalJoinType,
) -> Result<SchemaView, PlanErrorView> {
    error::labelled_schema("USING join schema: "@, using_fields(left, right, pairs, t))
}

fn in_pairs(pairs: &Vec<(usize, usize)>, i: usize, on_left: bool) -> (yes: bool)
    ensures
        yes == if on_left {
            used_left(pairs@, i as int)
        } else {
            used_right(pairs@, i as int)
        },
{
    let mut k: usize = 0;
    while k < pairs.len()
        invariant
            k <= pairs.len(),
            forall|j: int|
                0 <= j < k ==> if on_left {
                    (#[trigger] pairs@[j]).0 != i
                } else {
                    pairs@[j].1 != i
                },
        decreases pairs.len() - k,
    {
        let side: usize = if on_left {
            pairs[k].0
        } else {
            pairs[k].1
        };
        if side == i {
            return true;
        }
        k = k + 1;
    }
    false
}

fn copy_with_nulls(f: &Field, force: bool) -> (out: Field)
    ensures
        out@ == with_nulls(f@, force),
{
    Field {
        name: f.name.clone(),
        data_type: f.data_type.duplicate(),
        nullable: f.nullable || force,
    }
}

/// The schema of a `USING` join.
pub fn build_using_schema(
    left: &Schema,
    right: &Schema,
    pairs: &Vec<(usize, usize)>,
    join_type: LogicalJoinType,
) -> (made: Result<Schema, PlanError>)
    requires
        forall|k: int| 0 <= k < pairs@.len() ==> (#[trigger] pairs@[k]).0 < left@.fields.len(),
    ensures
        error::schema_outcome(made) == using_schema(left@, right@, pairs@, join_type),
{
    let full = matches!(join_type, LogicalJoinType::FullOuter);
    let force_left = matches!(join_type, LogicalJoinType::RightOuter | LogicalJoinType::FullOuter);
    let force_right = matches!(join_type, LogicalJoinType::LeftOuter | LogicalJoinType::FullOuter);
    let mut fields: Vec<Field> = Vec::new();
    let ghost shared = Seq::new(
        pairs@.len(),
        |k: int| with_nulls(left@.fields[pairs@[k].0 as int], full),
    );
    let mut k: usize = 0;
    while k < pairs.len()
        invariant
            k <= pairs.len(),
            forall|j: int| 0 <= j < pairs@.len() ==> (#[trigger] pairs@[j]).0 < left@.fields.len(),
            shared == Seq::new(
                pairs@.len(),
                |k: int| with_nulls(left@.fields[pairs@[k].0 as int], full),
            ),
            fields.len() == k,
            forall|j: int| 0 <= j < k ==> (#[trigger] fields@[j])@ == shared[j],
        decreases pairs.len() - k,
    {
        fields.push(copy_with_nulls(&left.fields[pairs[k].0], full));
        k = k + 1;
    }
    assert(schema::fields_view(fields@) =~= shared);
    let ghost l_rest = left_rest(left@.fields, pairs@, force_left, 0);
    let mut i: usize = 0;
    assert(schema::fields_view(fields@) + l_rest =~= shared + l_rest);
    while i < left.fields.len()
        invariant
            i <= left.fields.len(),
            schema::fields_view(fields@) + left_rest(left@.fields, pairs@, force_left, i as int)
                == shared + l_rest,
        decreases left.fields.len() - i,
    {
        if !in_pairs(pairs, i, true) {
            let made = copy_with_nulls(&left.fields[i], force_left);
            proof {
                schema::lemma_fields_push(fields@, made);
                assert(schema::fields_view(fields@).push(made@) + left_rest(
                    left@.fields,
                    pairs@,
                    force_left,
                    i + 1,
                ) =~= schema::fields_view(fields@) + left_rest(
                    left@.fields,
                    pairs@,
                    force_left,
                    i as int,
                ));
            }
            fields.push(made);
        }
        i = i + 1;
    }
    assert(schema::fields_view(fields@) =~= shared + l_rest);
    let ghost r_rest = right_rest(right@.fields, pairs@, force_right, 0);
    let mut j: usize = 0;
    assert(schema::fields_view(fields@) + r_rest =~= shared + l_rest + r_rest);
    while j < right.fields.len()
        invariant
            j <= right.fields.len(),
            schema::fields_view(fields@) + right_rest(right@.fields, pairs@, force_right, j as int)
                == shared + l_rest + r_rest,
        decreases right.fields.len() - j,
    {
        if !in_pairs(pairs, j, false) {
            let made = copy_with_nulls(&right.fields[j], force_right);
            proof {
                schema::lemma_fields_push(fields@, made);
                assert(schema::fields_view(fields@).push(made@) + right_rest(
                    right@.fields,
                    pairs@,
                    force_right,
                    j + 1,
                ) =~= schema::fields_view(fields@) + right_rest(
                    right@.fields,
                    pairs@,
                    force_right,
                    j as int,
                ));
            }
            fields.push(made);
        }
        j = j + 1;
    }
    assert(schema::fields_view(fields@) =~= using_fields(left@, right@, pairs@, join_type));
    schema_or_mismatch("USING join schema: ", fields)
}

/// The first pair from the `k`-th on that joins a column, on the left or on the
/// right side.
pub open spec fn pair_of(pairs: Seq<(usize, usize)>, on_left: bool, i: int, k: int) -> Option<int>
    decreases pairs.len() - k,
{
    if k < 0 || k >= pairs.len() {
        None
    } else if i == (if on_left {
        pairs[k].0
    } else {
        pairs[k].1
    }) {
        Some(k)
    } else {
        pair_of(pairs, on_left, i, k + 1)
    }
}

/// How many of the first `n` columns of a side are in no pair.
pub open spec fn unpaired(pairs: Seq<(usize, usize)>, on_left: bool, n: int) -> nat
    decreases n,
{
    if n <= 0 {
        0
    } else {
        unpaired(pairs, on_left, n - 1) + if pair_of(pairs, on_left, n - 1, 0) is None {
            1nat
        } else {
            0nat
        }
    }
}

/// Where a column of a side stands in the row of a `USING` join: a joined
/// column at the place of its pair, another one behind the pairs, and those of
/// the right side behind all of the left side.
pub open spec fn using_place(
    pairs: Seq<(usize, usize)>,
    left_len: nat,
    on_left: bool,
    i: int,
) -> int {
    match pair_of(pairs, on_left, i, 0) {
        Some(k) => k,
        None => (pairs.len() + if on_left {
            unpaired(pairs, true, i)
        } else {
            unpaired(pairs, true, left_len as int) + unpaired(pairs, false, i)
        }) as int,
    }
}

/// An offered column at another place: it keeps its name, and its type is that
/// of the place.
pub open spec fn moved_entry(e: ScopeEntryView, row: SchemaView, at: int) -> ScopeEntryView {
    ScopeEntryView {
        qualifier: e.qualifier,
        field_index: at as usize,
        field: FieldView {
            name: e.field.name,
            data_type: row.fields[at].data_type,
            nullable: row.fields[at].nullable,
        },
    }
}

/// The columns that a side of a `USING` join offers in the row of the join.
pub open spec fn moved_entries(
    entries: Seq<ScopeEntryView>,
    pairs: Seq<(usize, usize)>,
    left_len: nat,
    on_left: bool,
    row: SchemaView,
) -> Seq<ScopeEntryView> {
    Seq::new(
        entries.len(),
        |i: int|
            moved_entry(
                entries[i],
                row,
                using_place(pairs, left_len, on_left, entries[i].field_index as int),
            ),
    )
}

proof fn unpaired_grows(pairs: Seq<(usize, usize)>, on_left: bool, i: int, n: int)
    requires
        0 <= i < n,
        pair_of(pairs, on_left, i, 0) is None,
    ensures
        unpaired(pairs, on_left, i) < unpaired(pairs, on_left, n),
    decreases n,
{
    if i < n - 1 {
        unpaired_grows(pairs, on_left, i, n - 1);
    }
}

proof fn pairs_are_found(pairs: Seq<(usize, usize)>, on_left: bool, i: int, k: int)
    requires
        0 <= k,
    ensures
        match pair_of(pairs, on_left, i, k) {
            Some(j) => k <= j < pairs.len() && i == if on_left {
                pairs[j].0
            } else {
                pairs[j].1
            },
            None => forall|j: int|
                k <= j < pairs.len() ==> i != if on_left {
                    (#[trigger] pairs[j]).0
                } else {
                    pairs[j].1
                },
        },
    decreases pairs.len() - k,
{
    if k < pairs.len() {
        pairs_are_found(pairs, on_left, i, k + 1);
    }
}

proof fn left_rest_places(
    fields: Seq<FieldView>,
    pairs: Seq<(usize, usize)>,
    force: bool,
    from: int,
    i: int,
)
    requires
        0 <= from <= i <= fields.len(),
    ensures
        left_rest(fields, pairs, force, from).len() == unpaired(pairs, true, fields.len() as int)
            - unpaired(pairs, true, from),
        unpaired(pairs, true, from) <= unpaired(pairs, true, i),
        i < fields.len() && pair_of(pairs, true, i, 0) is None ==> left_rest(
            fields,
            pairs,
            force,
            from,
        )[unpaired(pairs, true, i) - unpaired(pairs, true, from)] == with_nulls(fields[i], force),
    decreases fields.len() - from,
{
    if from < fields.len() {
        pairs_are_found(pairs, true, from, 0);
        assert(used_left(pairs, from) == (pair_of(pairs, true, from, 0) is Some));
        if from < i {
            left_rest_places(fields, pairs, force, from + 1, i);
            if i < fields.len() && pair_of(pairs, true, i, 0) is None {
                unpaired_grows(pairs, true, i, fields.len() as int);
            }
        } else {
            left_rest_places(fields, pairs, force, from + 1, from + 1);
        }
    }
}

proof fn right_rest_places(
    fields: Seq<FieldView>,
    pairs: Seq<(usize, usize)>,
    force: bool,
    from: int,
    i: int,
)
    requires
        0 <= from <= i <= fields.len(),
    ensures
        right_rest(fields, pairs, force, from).len() == unpaired(pairs, false, fields.len() as int)
            - unpaired(pairs, false, from),
        unpaired(pairs, false, from) <= unpaired(pairs, false, i),
        i < fields.len() && pair_of(pairs, false, i, 0) is None ==> right_rest(
            fields,
            pairs,
            force,
            from,
        )[unpaired(pairs, false, i) - unpaired(pairs, false, from)] == with_nulls(fields[i], force),
    decreases fields.len() - from,
{
    if from < fields.len() {
        pairs_are_found(pairs, false, from, 0);
        assert(used_right(pairs, from) == (pair_of(pairs, false, from, 0) is Some));
        if from < i {
            right_rest_places(fields, pairs, force, from + 1, i);
            if i < fields.len() && pair_of(pairs, false, i, 0) is None {
                unpaired_grows(pairs, false, i, fields.len() as int);
            }
        } else {
            right_rest_places(fields, pairs, force, from + 1, from + 1);
        }
    }
}

/// Every column of either side has its place in the row of a `USING` join. At
/// that place stands the joined left column, or else the column itself.
pub proof fn using_places_are_in_the_row(
    left: SchemaView,
    right: SchemaView,
    pairs: Seq<(usize, usize)>,
    t: LogicalJoinType,
    on_left: bool,
    i: int,
)
    requires
        0 <= i < if on_left {
            left.fields.len()
        } else {
            right.fields.len()
        },
    ensures
        ({
            let fields = using_fields(left, right, pairs, t);
            let at = using_place(pairs, left.fields.len(), on_left, i);
            let own = if on_left {
                left.fields[i]
            } else {
                right.fields[i]
            };
            &&& 0 <= at < fields.len()
            &&& match pair_of(pairs, on_left, i, 0) {
                Some(k) => at == k && fields[at] == with_nulls(
                    left.fields[pairs[k].0 as int],
                    t is FullOuter,
                ),
                None => fields[at] == with_nulls(
                    own,
                    if on_left {
                        nulls_left(t)
                    } else {
                        nulls_right(t)
                    },
                ),
            }
        }),
{
    pairs_are_found(pairs, on_left, i, 0);
    let n = left.fields.len() as int;
    let m = right.fields.len() as int;
    if on_left {
        left_rest_places(left.fields, pairs, nulls_left(t), 0, i);
    } else {
        left_rest_places(left.fields, pairs, nulls_left(t), 0, n);
    }
    right_rest_places(
        right.fields,
        pairs,
        nulls_right(t),
        0,
        if on_left {
            m
        } else {
            i
        },
    );
    if pair_of(pairs, on_left, i, 0) is None {
        if on_left {
            unpaired_grows(pairs, true, i, n);
        } else {
            unpaired_grows(pairs, false, i, m);
        }
    }
}

fn find_pair(pairs: &Vec<(usize, usize)>, on_left: bool, i: usize) -> (found: Option<usize>)
    ensures
        match found {
            Some(k) => pair_of(pairs@, on_left, i as int, 0) == Some(k as int),
            None => pair_of(pairs@, on_left, i as int, 0) is None,
        },
{
    let mut k: usize = 0;
    while k < pairs.len()
        invariant
            k <= pairs.len(),
            pair_of(pairs@, on_left, i as int, k as int) == pair_of(pairs@, on_left, i as int, 0),
        decreases pairs.len() - k,
    {
        let joined: usize = if on_left {
            pairs[k].0
        } else {
            pairs[k].1
        };
        if joined == i {
            return Some(k);
        }
        k = k + 1;
    }
    None
}

fn count_unpaired(pairs: &Vec<(usize, usize)>, on_left: bool, n: usize) -> (count: usize)
    ensures
        count == unpaired(pairs@, on_left, n as int),
        count <= n,
{
    let mut count: usize = 0;
    let mut i: usize = 0;
    while i < n
        invariant
            i <= n,
            count <= i,
            count == unpaired(pairs@, on_left, i as int),
        decreases n - i,
    {
        if find_pair(pairs, on_left, i).is_none() {
            count = count + 1;
        }
        i = i + 1;
    }
    count
}

/// Moves the offered columns of a side of a `USING` join to their places in the
/// row of the join.
pub fn move_entries(
    entries: Vec<ScopeEntry>,
    pairs: &Vec<(usize, usize)>,
    left_len: usize,
    on_left: bool,
    row: &Schema,
) -> (out: Vec<ScopeEntry>)
    requires
        forall|i: int|
            0 <= i < entries@.len() ==> 0 <= #[trigger] using_place(
                pairs@,
                left_len as nat,
                on_left,
                entries_view(entries@)[i].field_index as int,
            ) < row@.fields.len(),
    ensures
        entries_view(out@) == moved_entries(
            entries_view(entries@),
            pairs@,
            left_len as nat,
            on_left,
            row@,
        ),
{
    let ghost wanted = moved_entries(
        entries_view(entries@),
        pairs@,
        left_len as nat,
        on_left,
        row@,
    );
    let mut out: Vec<ScopeEntry> = Vec::new();
    let mut i: usize = 0;
    while i < entries.len()
        invariant
            i <= entries.len(),
            wanted == moved_entries(
                entries_view(entries@),
                pairs@,
                left_len as nat,
                on_left,
                row@,
            ),
            forall|k: int|
                0 <= k < entries@.len() ==> 0 <= #[trigger] using_place(
                    pairs@,
                    left_len as nat,
                    on_left,
                    entries_view(entries@)[k].field_index as int,
                ) < row@.fields.len(),
            out.len() == i,
            forall|j: int| 0 <= j < i ==> (#[trigger] out@[j])@ == wanted[j],
        decreases entries.len() - i,
    {
        let e = &entries[i];
        let ghost place = using_place(
            pairs@,
            left_len as nat,
            on_left,
            entries_view(entries@)[i as int].field_index as int,
        );
        assert(0 <= place < row@.fields.len() <= row.fields.len());
        let at: usize = match find_pair(pairs, on_left, e.field_index) {
            Some(k) => k,
            None => {
                let own: usize = count_unpaired(pairs, on_left, e.field_index);
                if on_left {
                    pairs.len() + own
                } else {
                    pairs.len() + count_unpaired(pairs, true, left_len) + own
                }
            },
        };
        out.push(
            ScopeEntry {
                qualifier: e.qualifier.clone(),
                field_index: at,
                field: Field {
                    name: e.field.name.clone(),
                    data_type: row.fields[at].data_type.duplicate(),
                    nullable: row.fields[at].nullable,
                },
            },
        );
        i = i + 1;
    }
    assert(entries_view(out@) =~= wanted);
    out
}

/// The columns under the given names; columns past the list keep theirs.
pub open spec fn renamed_fields(
    fields: Seq<FieldView>,
    aliases: Seq<Identifier>,
) -> Seq<FieldView> {
    Seq::new(
        fields.len(),
        |i: int|
            FieldView {
                name: if i < aliases.len() {
                    aliases[i].value@
                } else {
                    fields[i].name
                },
                data_type: fields[i].data_type,
                nullable: fields[i].nullable,
            },
    )
}

/// The schema under the given column names, where names are given.
pub open spec fn aliased_schema(s: SchemaView, aliases: Seq<Identifier>) -> Result<
    SchemaView,
    PlanErrorView,
> {
    if aliases.len() == 0 {
        Ok(s)
    } else {
        error::labelled_schema("CTE column aliases: "@, renamed_fields(s.fields, aliases))
    }
}

/// Puts a schema under the given column names, where names are given.
pub fn apply_column_aliases(s: &Schema, aliases: &Vec<Identifier>) -> (made: Result<
    Schema,
    PlanError,
>)
    ensures
        error::schema_outcome(made) == aliased_schema(s@, aliases@),
{
    if aliases.len() == 0 {
        return Ok(s.duplicate());
    }
    let ghost wanted = renamed_fields(s@.fields, aliases@);
    let mut fields: Vec<Field> = Vec::new();
    let mut i: usize = 0;
    while i < s.fields.len()
        invariant
            i <= s.fields.len(),
            wanted == renamed_fields(s@.fields, aliases@),
            fields.len() == i,
            forall|j: int| 0 <= j < i ==> (#[trigger] fields@[j])@ == wanted[j],
        decreases s.fields.len() - i,
    {
        let name = if i < aliases.len() {
            aliases[i].value.clone()
        } else {
            s.fields[i].name.clone()
        };
        fields.push(
            Field {
                name,
                data_type: s.fields[i].data_type.duplicate(),
                nullable: s.fields[i].nullable,
            },
        );
        i = i + 1;
    }
    assert(schema::fields_view(fields@) =~= wanted);
    schema_or_mismatch("CTE column aliases: ", fields)
}

/// The type of a column of a set operation: a null side gives way, numeric
/// sides are joined, and otherwise the left side counts.
pub open spec fn set_column_type(l: DataTypeView, r: DataTypeView) -> DataTypeView {
    if l is Null {
        r
    } else if r is Null {
        l
    } else if datatype::numeric(l) && datatype::numeric(r) {
        datatype::join_numeric(l, r)->Some_0
    } else {
        l
    }
}

fn set_type(l: &DataType, r: &DataType) -> (t: DataType)
    ensures
        t@ == set_column_type(l@, r@),
{
    if l.is_null() {
        r.duplicate()
    } else if r.is_null() {
        l.duplicate()
    } else if l.is_numeric() && r.is_numeric() {
        match l.numeric_join(r) {
            Some(t) => t,
            None => l.duplicate(),
        }
    } else {
        l.duplicate()
    }
}

/// The columns of a set operation, under the names of the left side.
pub open spec fn set_fields(l: SchemaView, r: SchemaView) -> Seq<FieldView> {
    Seq::new(
        l.fields.len(),
        |i: int|
            schema::nullable_field(
                l.fields[i].name,
                set_column_type(l.fields[i].data_type, r.fields[i].data_type),
            ),
    )
}

pub open spec fn set_op_of(op: SetOp) -> LogicalSetOp {
    match op {
        SetOp::Union => LogicalSetOp::Union,
        SetOp::Intersect => LogicalSetOp::Intersect,
        SetOp::Except => LogicalSetOp::Except,
    }
}

pub open spec fn set_quantifier_of(q: SetQuantifier) -> LogicalSetQuantifier {
    match q {
        SetQuantifier::All => LogicalSetQuantifier::All,
        SetQuantifier::Distinct => LogicalSetQuantifier::Distinct,
    }
}

/// The plan of a set operation on two plans of as many columns.
pub open spec fn set_operation(
    left: QueryPlanView,
    op: SetOp,
    quantifier: SetQuantifier,
    right: QueryPlanView,
) -> Result<QueryPlanView, PlanErrorView> {
    let l = query::query_schema(left);
    let r = query::query_schema(right);
    if l.fields.len() != r.fields.len() {
        Err(
            PlanErrorView::TypeMismatch(
                "set operation: left side has "@ + text::decimal(l.fields.len())
                    + " columns, right side has "@ + text::decimal(r.fields.len()),
            ),
        )
    } else {
        match error::labelled_schema("set op schema: "@, set_fields(l, r)) {
            Err(e) => Err(e),
            Ok(schema) => Ok(
                QueryPlanView::SetOp {
                    op: set_op_of(op),
                    quantifier: set_quantifier_of(quantifier),
                    left: Box::new(left),
                    right: Box::new(right),
                    schema,
                },
            ),
        }
    }
}

/// Makes the plan of a set operation.
pub fn bind_set_op(
    left: QueryPlan,
    op: SetOp,
    quantifier: SetQuantifier,
    right: QueryPlan,
) -> (made:
    Result<QueryPlan, PlanError>)
    ensures
        error::query_outcome(made) == set_operation(left@, op, quantifier, right@),
{
    let l = left.schema();
    let r = right.schema();
    if l.len() != r.len() {
        return Err(
            PlanError::TypeMismatch(
                cat4(
                    "set operation: left side has ",
                    show_usize(l.len()).as_str(),
                    " columns, right side has ",
                    show_usize(r.len()).as_str(),
                ),
            ),
        );
    }
    let ghost wanted = set_fields(l@, r@);
    let mut fields: Vec<Field> = Vec::new();
    let mut i: usize = 0;
    while i < l.fields.len()
        invariant
            i <= l.fields.len(),
            l@.fields.len() == r@.fields.len(),
            wanted == set_fields(l@, r@),
            fields.len() == i,
            forall|j: int| 0 <= j < i ==> (#[trigger] fields@[j])@ == wanted[j],
        decreases l.fields.len() - i,
    {
        let t = set_type(&l.fields[i].data_type, &r.fields[i].data_type);
        fields.push(Field::nullable(l.fields[i].name.clone(), t));
        i = i + 1;
    }
    assert(schema::fields_view(fields@) =~= wanted);
    let schema = schema_or_mismatch("set op schema: ", fields)?;
    let logical_op = match op {
        SetOp::Union => LogicalSetOp::Union,
        SetOp::Intersect => LogicalSetOp::Intersect,
        SetOp::Except => LogicalSetOp::Except,
    };
    let logical_quantifier = match quantifier {
        SetQuantifier::All => LogicalSetQuantifier::All,
        SetQuantifier::Distinct => LogicalSetQuantifier::Distinct,
    };
    Ok(
        QueryPlan::SetOp {
            op: logical_op,
            quantifier: logical_quantifier,
            left: Box::new(left),
            right: Box::new(right),
            schema,
        },
    )
}

/// How many of the first `i` columns have the given name up to case.
pub open spec fn same_before(fields: Seq<FieldView>, name: Seq<char>, i: int) -> nat
    decreases i,
{
    if i <= 0 {
        0
    } else {
        same_before(fields, name, i - 1) + if text::same_fold(fields[i - 1].name, name) {
            1nat
        } else {
            0nat
        }
    }
}

/// The columns with repeated names made distinct: a column whose name occurs
/// `n` times before it gets the suffix `_n`.
pub open spec fn unique_fields(fields: Seq<FieldView>) -> Seq<FieldView> {
    Seq::new(
        fields.len(),
        |i: int|
            {
                let n = same_before(fields, fields[i].name, i);
                FieldView {
                    name: if n > 0 {
                        fields[i].name + "_"@ + text::decimal(n)
                    } else {
                        fields[i].name
                    },
                    data_type: fields[i].data_type,
                    nullable: fields[i].nullable,
                }
            },
    )
}

fn count_same(fields: &Vec<Field>, name: &str, upto: usize) -> (n: usize)
    requires
        upto <= fields.len(),
    ensures
        n == same_before(schema::fields_view(fields@), name@, upto as int),
        n <= upto,
{
    let mut n: usize = 0;
    let mut i: usize = 0;
    while i < upto
        invariant
            i <= upto <= fields.len(),
            n <= i,
            n == same_before(schema::fields_view(fields@), name@, i as int),
        decreases upto - i,
    {
        if eq_fold(fields[i].name.as_str(), name) {
            n = n + 1;
        }
        i = i + 1;
    }
    n
}

/// A schema of the columns, with repeated names made distinct.
pub fn build_unique_schema(fields: Vec<Field>) -> (made: Result<Schema, PlanError>)
    ensures
        error::schema_outcome(made) == error::labelled_schema(
            "aggregate schema: "@,
            unique_fields(schema::fields_view(fields@)),
        ),
{
    let ghost wanted = unique_fields(schema::fields_view(fields@));
    let mut out: Vec<Field> = Vec::new();
    let mut i: usize = 0;
    while i < fields.len()
        invariant
            i <= fields.len(),
            wanted == unique_fields(schema::fields_view(fields@)),
            out.len() == i,
            forall|j: int| 0 <= j < i ==> (#[trigger] out@[j])@ == wanted[j],
        decreases fields.len() - i,
    {
        let f = &fields[i];
        let n: usize = count_same(&fields, f.name.as_str(), i);
        let name = if n > 0 {
            cat3(f.name.as_str(), "_", show_usize(n).as_str())
        } else {
            f.name.clone()
        };
        out.push(Field { name, data_type: f.data_type.duplicate(), nullable: f.nullable });
        i = i + 1;
    }
    assert(schema::fields_view(out@) =~= wanted);
    schema_or_mismatch("aggregate schema: ", out)
}

/// The nullable columns that named expressions produce.
pub open spec fn output_fields(outs: Seq<(ScalarExprView, Seq<char>)>) -> Seq<FieldView> {
    Seq::new(
        outs.len(),
        |i: int| schema::nullable_field(outs[i].1, query::scalar_type(outs[i].0)),
    )
}

/// The schema of named expressions; a repeated name is a mismatch whose text
/// begins with `label`.
pub fn output_schema(label: &str, outs: &Vec<(ScalarExpr, String)>) -> (made: Result<
    Schema,
    PlanError,
>)
    ensures
        error::schema_outcome(made) == error::labelled_schema(
            label@,
            output_fields(query::outputs_view(outs@)),
        ),
{
    let ghost wanted = output_fields(query::outputs_view(outs@));
    let mut fields: Vec<Field> = Vec::new();
    let mut i: usize = 0;
    while i < outs.len()
        invariant
            i <= outs.len(),
            wanted == output_fields(query::outputs_view(outs@)),
            fields.len() == i,
            forall|j: int| 0 <= j < i ==> (#[trigger] fields@[j])@ == wanted[j],
        decreases outs.len() - i,
    {
        fields.push(Field::nullable(outs[i].1.clone(), outs[i].0.data_type()));
        i = i + 1;
    }
    assert(schema::fields_view(fields@) =~= wanted);
    schema_or_mismatch(label, fields)
}

/// A join without `USING` has the columns of its left side and then those of
/// its right side, with their types. Only the side that an outer join fills up
/// becomes nullable.
pub proof fn joins_keep_columns(left: SchemaView, right: SchemaView, t: LogicalJoinType)
    ensures
        join_schema(left, right, t) matches Ok(s) ==> {
            &&& s.fields.len() == left.fields.len() + right.fields.len()
            &&& forall|i: int|
                0 <= i < left.fields.len() ==> {
                    &&& (#[trigger] s.fields[i]).name == left.fields[i].name
                    &&& s.fields[i].data_type == left.fields[i].data_type
                    &&& s.fields[i].nullable == (left.fields[i].nullable || nulls_left(t))
                }
            &&& forall|i: int|
                0 <= i < right.fields.len() ==> {
                    let f = #[trigger] right.fields[i];
                    let made = s.fields[left.fields.len() + i];
                    &&& made.data_type == f.data_type
                    &&& made.nullable == (f.nullable || nulls_right(t))
                }
        },
{
}

proof fn left_rest_without_one(
    fields: Seq<FieldView>,
    pairs: Seq<(usize, usize)>,
    pair: (usize, usize),
    force: bool,
    i: int,
)
    requires
        0 <= i <= fields.len(),
        pair.0 < fields.len(),
        !used_left(pairs, pair.0 as int),
    ensures
        left_rest(fields, pairs, force, i).len() == left_rest(fields, pairs.push(pair), force, i).len()
            + if pair.0 >= i {
            1int
        } else {
            0int
        },
    decreases fields.len() - i,
{
    if i < fields.len() {
        left_rest_without_one(fields, pairs, pair, force, i + 1);
        let more = pairs.push(pair);
        assert(more[pairs.len() as int] == pair);
        assert forall|k: int| 0 <= k < pairs.len() implies more[k] == #[trigger] pairs[k] by {}
        if pair.0 == i {
            assert(used_left(more, i));
        } else {
            assert(used_left(more, i) == used_left(pairs, i)) by {
                if used_left(pairs, i) {
                    let k = choose|k: int| 0 <= k < pairs.len() && (#[trigger] pairs[k]).0 == i;
                    assert(more[k].0 == i);
                }
            }
        }
    }
}

proof fn right_rest_without_one(
    fields: Seq<FieldView>,
    pairs: Seq<(usize, usize)>,
    pair: (usize, usize),
    force: bool,
    i: int,
)
    requires
        0 <= i <= fields.len(),
        pair.1 < fields.len(),
        !used_right(pairs, pair.1 as int),
    ensures
        right_rest(fields, pairs, force, i).len() == right_rest(
            fields,
            pairs.push(pair),
            force,
            i,
        ).len() + if pair.1 >= i {
            1int
        } else {
            0int
        },
    decreases fields.len() - i,
{
    if i < fields.len() {
        right_rest_without_one(fields, pairs, pair, force, i + 1);
        let more = pairs.push(pair);
        assert(more[pairs.len() as int] == pair);
        assert forall|k: int| 0 <= k < pairs.len() implies more[k] == #[trigger] pairs[k] by {}
        if pair.1 == i {
            assert(used_right(more, i));
        } else {
            assert(used_right(more, i) == used_right(pairs, i)) by {
                if used_right(pairs, i) {
                    let k = choose|k: int| 0 <= k < pairs.len() && (#[trigger] pairs[k]).1 == i;
                    assert(more[k].1 == i);
                }
            }
        }
    }
}

proof fn rests_without_pairs(
    left: Seq<FieldView>,
    right: Seq<FieldView>,
    pairs: Seq<(usize, usize)>,
    force_left: bool,
    force_right: bool,
)
    requires
        forall|k: int|
            0 <= k < pairs.len() ==> (#[trigger] pairs[k]).0 < left.len() && pairs[k].1 < right.len(),
        forall|j: int, k: int|
            0 <= j < k < pairs.len() ==> (#[trigger] pairs[j]).0 != (#[trigger] pairs[k]).0
                && pairs[j].1 != pairs[k].1,
    ensures
        left_rest(left, pairs, force_left, 0).len() == left.len() - pairs.len(),
        right_rest(right, pairs, force_right, 0).len() == right.len() - pairs.len(),
    decreases pairs.len(),
{
    if pairs.len() == 0 {
        rest_of_unused(left, right, pairs, force_left, force_right, 0);
    } else {
        let fewer = pairs.drop_last();
        let last = pairs.last();
        assert(fewer.push(last) =~= pairs);
        rests_without_pairs(left, right, fewer, force_left, force_right);
        left_rest_without_one(left, fewer, last, force_left, 0);
        right_rest_without_one(right, fewer, last, force_right, 0);
    }
}

proof fn rest_of_unused(
    left: Seq<FieldView>,
    right: Seq<FieldView>,
    pairs: Seq<(usize, usize)>,
    force_left: bool,
    force_right: bool,
    i: int,
)
    requires
        pairs.len() == 0,
        0 <= i,
    ensures
        i <= left.len() ==> left_rest(left, pairs, force_left, i).len() == left.len() - i,
        i <= right.len() ==> right_rest(right, pairs, force_right, i).len() == right.len() - i,
    decreases left.len() + right.len() - i,
{
    if i < left.len() || i < right.len() {
        rest_of_unused(left, right, pairs, force_left, force_right, i + 1);
    }
}

/// Each pair of a `USING` list joins the first columns of a name.
pub proof fn pairs_follow_names(
    cols: Seq<Identifier>,
    i: int,
    acc: Seq<(usize, usize)>,
    left: SchemaView,
    right: SchemaView,
)
    requires
        i == acc.len(),
        i <= cols.len(),
        left.fields.len() <= usize::MAX,
        right.fields.len() <= usize::MAX,
        forall|k: int|
            0 <= k < acc.len() ==> {
                &&& schema::find_field(left, cols[k].value@) == Some((#[trigger] acc[k]).0 as int)
                &&& schema::find_field(right, cols[k].value@) == Some(acc[k].1 as int)
            },
    ensures
        using_pairs(cols, i, acc, left, right) matches Ok(pairs) ==> {
            &&& pairs.len() == cols.len()
            &&& forall|k: int|
                0 <= k < pairs.len() ==> {
                    &&& schema::find_field(left, cols[k].value@) == Some((#[trigger] pairs[k]).0 as int)
                    &&& schema::find_field(right, cols[k].value@) == Some(pairs[k].1 as int)
                }
        },
    decreases cols.len() - i,
{
    if i < cols.len() {
        match (schema::find_field(left, cols[i].value@), schema::find_field(right, cols[i].value@)) {
            (Some(l), Some(r)) => {
                schema::find_gives_first(left.fields, cols[i].value@, 0);
                schema::find_gives_first(right.fields, cols[i].value@, 0);
                pairs_follow_names(cols, i + 1, acc.push((l as usize, r as usize)), left, right);
            },
            _ => {},
        }
    }
}

/// A `USING` join has each joined column once: it begins with them, in the order
/// of the list, and it is as many columns narrower than both sides together.
pub proof fn using_joins_merge_columns(
    cols: Seq<Identifier>,
    left: SchemaView,
    right: SchemaView,
    t: LogicalJoinType,
)
    requires
        left.fields.len() <= usize::MAX,
        right.fields.len() <= usize::MAX,
    ensures
        using_pairs(cols, 0, Seq::empty(), left, right) matches Ok(pairs) ==> {
            &&& pairs.len() == cols.len()
            &&& using_schema(left, right, pairs, t) matches Ok(s) ==> {
                &&& s.fields.len() == left.fields.len() + right.fields.len() - cols.len()
                &&& forall|k: int|
                    0 <= k < cols.len() ==> text::same_fold(
                        (#[trigger] s.fields[k]).name,
                        cols[k].value@,
                    )
            }
        },
{
    pairs_follow_names(cols, 0, Seq::empty(), left, right);
    if let Ok(pairs) = using_pairs(cols, 0, Seq::empty(), left, right) {
        assert forall|k: int| 0 <= k < pairs.len() implies {
            &&& (#[trigger] pairs[k]).0 < left.fields.len()
            &&& pairs[k].1 < right.fields.len()
            &&& text::same_fold(left.fields[pairs[k].0 as int].name, cols[k].value@)
            &&& text::same_fold(right.fields[pairs[k].1 as int].name, cols[k].value@)
        } by {
            schema::find_gives_first(left.fields, cols[k].value@, 0);
            schema::find_gives_first(right.fields, cols[k].value@, 0);
        }
        if let Ok(s) = using_schema(left, right, pairs, t) {
            let fields = using_fields(left, right, pairs, t);
            schema::schema_needs_distinct_names(fields);
            assert(s.fields == fields);
            assert forall|k: int| 0 <= k < pairs.len() implies (#[trigger] fields[k]).name
                == left.fields[pairs[k].0 as int].name by {}
            assert forall|j: int, k: int| 0 <= j < k < pairs.len() implies (#[trigger] pairs[j]).0
                != (#[trigger] pairs[k]).0 && pairs[j].1 != pairs[k].1 by {
                assert(!text::same_fold(fields[j].name, fields[k].name));
            }
            rests_without_pairs(left.fields, right.fields, pairs, nulls_left(t), nulls_right(t));
            assert forall|k: int| 0 <= k < cols.len() implies text::same_fold(
                (#[trigger] s.fields[k]).name,
                cols[k].value@,
            ) by {
                assert(pairs[k].0 < left.fields.len());
            }
        }
    }
}

/// Both sides of a set operation have as many columns, and the operation has
/// them under the names of the left side.
pub proof fn set_operations_match_widths(
    left: QueryPlanView,
    op: SetOp,
    quantifier: SetQuantifier,
    right: QueryPlanView,
)
    ensures
        set_operation(left, op, quantifier, right) matches Ok(p) ==> {
            let l = query::query_schema(left).fields;
            let made = query::query_schema(p).fields;
            &&& l.len() == query::query_schema(right).fields.len()
            &&& made.len() == l.len()
            &&& forall|i: int| 0 <= i < l.len() ==> (#[trigger] made[i]).name == l[i].name
        },
{
}

/// A list of aliases changes names only. Columns past the list keep theirs.
pub proof fn aliases_keep_types(s: SchemaView, aliases: Seq<Identifier>)
    ensures
        aliased_schema(s, aliases) matches Ok(made) ==> {
            &&& made.fields.len() == s.fields.len()
            &&& forall|i: int|
                0 <= i < s.fields.len() ==> {
                    &&& (#[trigger] made.fields[i]).data_type == s.fields[i].data_type
                    &&& made.fields[i].nullable == s.fields[i].nullable
                    &&& made.fields[i].name == if i < aliases.len() {
                        aliases[i].value@
                    } else {
                        s.fields[i].name
                    }
                }
        },
{
}

} // verus!

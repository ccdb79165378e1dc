//! Columns and relation schemas.
use crate::datatype::{DataType, DataTypeView};
use crate::text;
use crate::text::{cat2, eq_fold, text_eq};
use vstd::prelude::*;

verus! {

/// A named, typed column.
#[derive(Debug, PartialEq)]
pub struct Field {
    pub name: String,
    pub data_type: DataType,
    pub nullable: bool,
}

/// The model of a [`Field`].
pub struct FieldView {
    pub name: Seq<char>,
    pub data_type: DataTypeView,
    pub nullable: bool,
}

impl Field {
    pub open spec fn view(&self) -> FieldView {
        FieldView {
            name: self.name@,
            data_type: self.data_type.view(),
            nullable: self.nullable,
        }
    }

    pub fn duplicate(&self) -> (copy: Field)
        ensures
            copy@ == self@,
    {
        Field {
            name: self.name.clone(),
            data_type: self.data_type.duplicate(),
            nullable: self.nullable,
        }
    }

    pub fn same(&self, other: &Field) -> (yes: bool)
        ensures
            yes == (self@ == other@),
    {
        let eq_name = text_eq(self.name.as_str(), other.name.as_str());
        let eq_data_type = self.data_type.same(&other.data_type);
        let eq_nullable = self.nullable == other.nullable;
        eq_name && eq_data_type && eq_nullable
    }

}

/// The models of columns.
pub open spec fn fields_view(s: Seq<Field>) -> Seq<FieldView> {
    Seq::new(s.len(), |i: int| s[i].view())
}

/// Appending an element appends its model.
pub broadcast proof fn lemma_fields_push(s: Seq<Field>, e: Field)
    ensures
        #[trigger] fields_view(s.push(e)) == fields_view(s).push(e.view()),
{
    assert(fields_view(s.push(e)) =~= fields_view(s).push(e.view()));
}

/// Copies columns.
pub fn duplicate_fields(list: &Vec<Field>) -> (copy: Vec<Field>)
    ensures
        fields_view(copy@) == fields_view(list@),
{
    let mut copy: Vec<Field> = Vec::new();
    let mut i: usize = 0;
    while i < list.len()
        invariant
            i <= list.len(),
            copy.len() == i,
            forall|j: int| 0 <= j < i ==> fields_view(copy@)[j] == #[trigger] fields_view(list@)[j],
        decreases list.len() - i,
    {
        let ghost before = copy@;
        let item: Field = list[i].duplicate();
        copy.push(item);
        proof {
            lemma_fields_push(before, item);
        }
        i = i + 1;
    }
    assert(fields_view(copy@) =~= fields_view(list@));
    copy
}

/// Whether two lists of columns are equal.
pub fn same_fields(list: &Vec<Field>, other: &Vec<Field>) -> (yes: bool)
    ensures
        yes == (fields_view(list@) == fields_view(other@)),
{
    if list.len() != other.len() {
        assert(fields_view(list@).len() != fields_view(other@).len());
        return false;
    }
    let mut i: usize = 0;
    while i < list.len()
        invariant
            i <= list.len(),
            list.len() == other.len(),
            forall|j: int|
                0 <= j < i ==> fields_view(list@)[j] == #[trigger] fields_view(other@)[j],
        decreases list.len() - i,
    {
        let eq = list[i].same(&other[i]);
        if !eq {
            assert(fields_view(list@)[i as int] != fields_view(other@)[i as int]);
            return false;
        }
        i = i + 1;
    }
    assert(fields_view(list@) =~= fields_view(other@));
    true
}

/// The columns of a relation, in order.
#[derive(Debug, PartialEq)]
pub struct Schema {
    pub fields: Vec<Field>,
}

/// The model of a [`Schema`].
pub struct SchemaView {
    pub fields: Seq<FieldView>,
}

impl Schema {
    pub open spec fn view(&self) -> SchemaView {
        SchemaView {
            fields: fields_view(self.fields@),
        }
    }

    pub fn duplicate(&self) -> (copy: Schema)
        ensures
            copy@ == self@,
    {
        Schema {
            fields: duplicate_fields(&self.fields),
        }
    }

    pub fn same(&self, other: &Schema) -> (yes: bool)
        ensures
            yes == (self@ == other@),
    {
        let eq_fields = same_fields(&self.fields, &other.fields);
        eq_fields
    }

}

/// Whether column `i` repeats the name of an earlier column, up to case.
pub open spec fn repeats_at(fields: Seq<FieldView>, i: int) -> bool {
    exists|j: int| 0 <= j < i && text::same_fold(#[trigger] fields[j].name, fields[i].name)
}

/// The name of the first column, from `i` on, that repeats an earlier name.
pub open spec fn first_repeat(fields: Seq<FieldView>, i: int) -> Option<Seq<char>>
    decreases fields.len() - i,
{
    if i < 0 || i >= fields.len() {
        None
    } else if repeats_at(fields, i) {
        Some(fields[i].name)
    } else {
        first_repeat(fields, i + 1)
    }
}

/// The first column, from `i` on, that has the given name up to case.
pub open spec fn find_from(fields: Seq<FieldView>, name: Seq<char>, i: int) -> Option<int>
    decreases fields.len() - i,
{
    if i < 0 || i >= fields.len() {
        None
    } else if text::same_fold(fields[i].name, name) {
        Some(i)
    } else {
        find_from(fields, name, i + 1)
    }
}

/// The first column that has the given name up to case.
pub open spec fn find_field(s: SchemaView, name: Seq<char>) -> Option<int> {
    find_from(s.fields, name, 0)
}

/// The schema without columns.
pub open spec fn empty_schema() -> SchemaView {
    SchemaView { fields: Seq::empty() }
}

/// What a schema says when column names repeat.
pub open spec fn repeat_text(name: Seq<char>) -> Seq<char> {
    "duplicate column name: "@ + name
}

/// A column that may hold nulls.
pub open spec fn nullable_field(name: Seq<char>, data_type: DataTypeView) -> FieldView {
    FieldView { name, data_type, nullable: true }
}

/// A column that holds no nulls.
pub open spec fn required_field(name: Seq<char>, data_type: DataTypeView) -> FieldView {
    FieldView { name, data_type, nullable: false }
}

/// A schema of the given columns, or the text of the complaint that a name
/// repeats.
pub open spec fn schema_of(fields: Seq<FieldView>) -> Result<SchemaView, Seq<char>> {
    match first_repeat(fields, 0) {
        None => Ok(SchemaView { fields }),
        Some(name) => Err(repeat_text(name)),
    }
}

impl Field {
    pub fn nullable(name: String, data_type: DataType) -> (field: Field)
        ensures
            field@ == nullable_field(name@, data_type@),
    {
        Field { name, data_type, nullable: true }
    }

    pub fn required(name: String, data_type: DataType) -> (field: Field)
        ensures
            field@ == required_field(name@, data_type@),
    {
        Field { name, data_type, nullable: false }
    }
}

/// Whether one of the first `count` columns has the given name up to case.
pub fn name_taken(fields: &Vec<Field>, count: usize, name: &str) -> (yes: bool)
    requires
        count <= fields.len(),
    ensures
        yes == exists|j: int|
            0 <= j < count && text::same_fold(#[trigger] fields_view(fields@)[j].name, name@),
{
    let mut j: usize = 0;
    while j < count
        invariant
            j <= count <= fields.len(),
            forall|k: int|
                0 <= k < j ==> !text::same_fold(#[trigger] fields_view(fields@)[k].name, name@),
        decreases count - j,
    {
        if eq_fold(fields[j].name.as_str(), name) {
            assert(text::same_fold(fields_view(fields@)[j as int].name, name@));
            return true;
        }
        j = j + 1;
    }
    false
}

impl Schema {
    pub fn empty() -> (s: Schema)
        ensures
            s@ == empty_schema(),
    {
        let s = Schema { fields: Vec::new() };
        assert(s@.fields =~= Seq::<FieldView>::empty());
        s
    }

    /// A schema of the given columns; column names must differ up to case.
    pub fn new(fields: Vec<Field>) -> (made: Result<Schema, String>)
        ensures
            (match made {
                Ok(s) => Ok(s@),
                Err(e) => Err(e@),
            }) == schema_of(fields_view(fields@)),
    {
        let mut i: usize = 0;
        let ghost model = fields_view(fields@);
        while i < fields.len()
            invariant
                i <= fields.len(),
                model == fields_view(fields@),
                first_repeat(model, i as int) == first_repeat(model, 0),
            decreases fields.len() - i,
        {
            if name_taken(&fields, i, fields[i].name.as_str()) {
                assert(repeats_at(model, i as int));
                return Err(cat2("duplicate column name: ", fields[i].name.as_str()));
            }
            assert(!repeats_at(model, i as int));
            i = i + 1;
        }
        Ok(Schema { fields })
    }

    pub fn len(&self) -> (n: usize)
        ensures
            n == self@.fields.len(),
    {
        self.fields.len()
    }

    pub fn is_empty(&self) -> (yes: bool)
        ensures
            yes == (self@.fields.len() == 0),
    {
        self.fields.len() == 0
    }

    pub fn field_at(&self, i: usize) -> (field: &Field)
        requires
            i < self@.fields.len(),
        ensures
            field@ == self@.fields[i as int],
    {
        &self.fields[i]
    }

    /// The position of the first column with the given name, up to case.
    pub fn find(&self, name: &str) -> (at: Option<usize>)
        ensures
            (match at {
                Some(i) => Some(i as int),
                None => None,
            }) == find_field(self@, name@),
            at matches Some(i) ==> i < self@.fields.len(),
    {
        self.find_after(name, 0)
    }

    /// The position of the first column, from `from` on, with the given name.
    pub fn find_after(&self, name: &str, from: usize) -> (at: Option<usize>)
        ensures
            (match at {
                Some(i) => Some(i as int),
                None => None,
            }) == find_from(self@.fields, name@, from as int),
            at matches Some(i) ==> from <= i < self@.fields.len(),
    {
        let mut i: usize = from;
        while i < self.fields.len()
            invariant
                from <= i,
                find_from(self@.fields, name@, i as int) == find_from(
                    self@.fields,
                    name@,
                    from as int,
                ),
            decreases self.fields.len() - i,
        {
            if eq_fold(self.fields[i].name.as_str(), name) {
                return Some(i);
            }
            i = i + 1;
        }
        None
    }
}

/// Looking a name up gives the first column with that name up to case, and
/// nothing exactly when no column has it.
pub proof fn find_gives_first(fields: Seq<FieldView>, name: Seq<char>, from: int)
    requires
        0 <= from <= fields.len(),
    ensures
        match find_from(fields, name, from) {
            Some(i) => {
                &&& from <= i < fields.len()
                &&& text::same_fold(fields[i].name, name)
                &&& forall|j: int| from <= j < i ==> !text::same_fold(
                    #[trigger] fields[j].name,
                    name,
                )
            },
            None => forall|j: int|
                from <= j < fields.len() ==> !text::same_fold(#[trigger] fields[j].name, name),
        },
    decreases fields.len() - from,
{
    if from < fields.len() && !text::same_fold(fields[from].name, name) {
        find_gives_first(fields, name, from + 1);
    }
}

/// A schema is made of columns exactly when their names differ up to case.
pub proof fn schema_needs_distinct_names(fields: Seq<FieldView>)
    ensures
        schema_of(fields) is Ok <==> forall|i: int, j: int|
            0 <= j < i < fields.len() ==> !text::same_fold(
                #[trigger] fields[j].name,
                #[trigger] fields[i].name,
            ),
{
    no_repeat_from(fields, 0);
    if schema_of(fields) is Ok {
        assert forall|i: int, j: int| 0 <= j < i < fields.len() implies !text::same_fold(
            #[trigger] fields[j].name,
            #[trigger] fields[i].name,
        ) by {
            assert(!repeats_at(fields, i));
        }
    }
    if forall|i: int, j: int|
        0 <= j < i < fields.len() ==> !text::same_fold(
            #[trigger] fields[j].name,
            #[trigger] fields[i].name,
        ) {
        assert forall|i: int| 0 <= i < fields.len() implies !#[trigger] repeats_at(fields, i) by {}
    }
}

proof fn no_repeat_from(fields: Seq<FieldView>, from: int)
    requires
        0 <= from <= fields.len(),
    ensures
        first_repeat(fields, from) is None <==> forall|i: int|
            from <= i < fields.len() ==> !#[trigger] repeats_at(fields, i),
    decreases fields.len() - from,
{
    if from < fields.len() && !repeats_at(fields, from) {
        no_repeat_from(fields, from + 1);
    }
}

} // verus!

//! The tables, types and indexes that names refer to.
use crate::datatype::{DataType, DataTypeView};
use crate::schema::{Schema, SchemaView};
use crate::text;
use crate::text::{eq_fold, owned};
use vstd::prelude::*;

verus! {

/// What is known of a table.
#[derive(Debug, PartialEq)]
pub struct TableMeta {
    pub schema_name: String,
    pub schema: Schema,
}

/// The model of a [`TableMeta`].
pub struct TableMetaView {
    pub schema_name: Seq<char>,
    pub schema: SchemaView,
}

impl TableMeta {
    pub open spec fn view(&self) -> TableMetaView {
        TableMetaView { schema_name: self.schema_name@, schema: self.schema@ }
    }

    /// A table of the default schema.
    pub fn new(schema: Schema) -> (meta: TableMeta)
        ensures
            meta@ == (TableMetaView { schema_name: "public"@, schema: schema@ }),
    {
        TableMeta { schema_name: owned("public"), schema }
    }

    pub fn duplicate(&self) -> (copy: TableMeta)
        ensures
            copy@ == self@,
    {
        TableMeta { schema_name: self.schema_name.clone(), schema: self.schema.duplicate() }
    }
}

/// What names refer to. A name alone is looked up on the search path; a schema
/// name and a name are looked up in that schema.
pub struct CatalogView {
    pub table: spec_fn(Seq<char>) -> Option<TableMetaView>,
    pub table_in: spec_fn(Seq<char>, Seq<char>) -> Option<TableMetaView>,
    pub table_oid: spec_fn(Seq<char>) -> Option<u32>,
    pub table_oid_in: spec_fn(Seq<char>, Seq<char>) -> Option<u32>,
    pub named_type: spec_fn(Seq<char>) -> Option<DataTypeView>,
    pub named_type_in: spec_fn(Seq<char>, Seq<char>) -> Option<DataTypeView>,
    pub type_oid: spec_fn(Seq<char>) -> Option<u32>,
    pub type_oid_in: spec_fn(Seq<char>, Seq<char>) -> Option<u32>,
    pub index_schema: spec_fn(Seq<char>) -> Option<Seq<char>>,
    pub index_in: spec_fn(Seq<char>, Seq<char>) -> bool,
}

pub open spec fn meta_view(m: Option<TableMeta>) -> Option<TableMetaView> {
    match m {
        Some(x) => Some(x@),
        None => None,
    }
}

pub open spec fn type_view(t: Option<DataType>) -> Option<DataTypeView> {
    match t {
        Some(x) => Some(x@),
        None => None,
    }
}

pub open spec fn name_view(t: Option<String>) -> Option<Seq<char>> {
    match t {
        Some(x) => Some(x@),
        None => None,
    }
}

/// A source of tables, types and indexes by name.
pub trait Catalog {
    /// What names refer to.
    spec fn model(&self) -> CatalogView;

    fn lookup_table(&self, name: &str) -> (found: Option<TableMeta>)
        ensures
            meta_view(found) == (self.model().table)(name@),
    ;

    fn lookup_table_in_schema(&self, schema_name: &str, name: &str) -> (found: Option<TableMeta>)
        ensures
            meta_view(found) == (self.model().table_in)(schema_name@, name@),
    ;

    fn lookup_table_oid(&self, name: &str) -> (found: Option<u32>)
        ensures
            found == (self.model().table_oid)(name@),
    ;

    fn lookup_table_oid_in_schema(&self, schema_name: &str, name: &str) -> (found: Option<u32>)
        ensures
            found == (self.model().table_oid_in)(schema_name@, name@),
    ;

    fn lookup_type(&self, name: &str) -> (found: Option<DataType>)
        ensures
            type_view(found) == (self.model().named_type)(name@),
    ;

    fn lookup_type_in_schema(&self, schema_name: &str, name: &str) -> (found: Option<DataType>)
        ensures
            type_view(found) == (self.model().named_type_in)(schema_name@, name@),
    ;

    fn lookup_type_oid(&self, name: &str) -> (found: Option<u32>)
        ensures
            found == (self.model().type_oid)(name@),
    ;

    fn lookup_type_oid_in_schema(&self, schema_name: &str, name: &str) -> (found: Option<u32>)
        ensures
            found == (self.model().type_oid_in)(schema_name@, name@),
    ;

    fn lookup_index_schema(&self, name: &str) -> (found: Option<String>)
        ensures
            name_view(found) == (self.model().index_schema)(name@),
    ;

    fn lookup_index_in_schema(&self, schema_name: &str, name: &str) -> (found: bool)
        ensures
            found == (self.model().index_in)(schema_name@, name@),
    ;
}

/// The catalog in which no name refers to anything.
pub struct NoopCatalog;

impl Catalog for NoopCatalog {
    open spec fn model(&self) -> CatalogView {
        CatalogView {
            table: |n: Seq<char>| None,
            table_in: |s: Seq<char>, n: Seq<char>| None,
            table_oid: |n: Seq<char>| None,
            table_oid_in: |s: Seq<char>, n: Seq<char>| None,
            named_type: |n: Seq<char>| None,
            named_type_in: |s: Seq<char>, n: Seq<char>| None,
            type_oid: |n: Seq<char>| None,
            type_oid_in: |s: Seq<char>, n: Seq<char>| None,
            index_schema: |n: Seq<char>| None,
            index_in: |s: Seq<char>, n: Seq<char>| false,
        }
    }

    fn lookup_table(&self, _name: &str) -> (found: Option<TableMeta>) {
        None
    }

    fn lookup_table_in_schema(
        &self,
        _schema_name: &str,
        _name: &str,
    ) -> (found: Option<TableMeta>) {
        None
    }

    fn lookup_table_oid(&self, _name: &str) -> (found: Option<u32>) {
        None
    }

    fn lookup_table_oid_in_schema(&self, _schema_name: &str, _name: &str) -> (found: Option<u32>) {
        None
    }

    fn lookup_type(&self, _name: &str) -> (found: Option<DataType>) {
        None
    }

    fn lookup_type_in_schema(&self, _schema_name: &str, _name: &str) -> (found: Option<DataType>) {
        None
    }

    fn lookup_type_oid(&self, _name: &str) -> (found: Option<u32>) {
        None
    }

    fn lookup_type_oid_in_schema(&self, _schema_name: &str, _name: &str) -> (found: Option<u32>) {
        None
    }

    fn lookup_index_schema(&self, _name: &str) -> (found: Option<String>) {
        None
    }

    fn lookup_index_in_schema(&self, _schema_name: &str, _name: &str) -> (found: bool) {
        false
    }
}

/// A table under its name.
#[derive(Debug, PartialEq)]
pub struct TableEntry {
    pub name: String,
    pub oid: u32,
    pub meta: TableMeta,
}

/// A type under its name.
#[derive(Debug, PartialEq)]
pub struct TypeEntry {
    pub schema_name: String,
    pub name: String,
    pub oid: u32,
    pub data_type: DataType,
}

/// An index under its name.
#[derive(Debug, PartialEq)]
pub struct IndexEntry {
    pub schema_name: String,
    pub name: String,
}

/// A catalog held in memory. Names are matched up to case, and of two entries
/// with one name the later one counts.
#[derive(Debug, PartialEq)]
pub struct InMemoryCatalog {
    pub tables: Vec<TableEntry>,
    pub types: Vec<TypeEntry>,
    pub indexes: Vec<IndexEntry>,
}

/// Whether an entry in `schema_name` is one that a lookup in `wanted` considers.
pub open spec fn schema_fits(schema_name: Seq<char>, wanted: Option<Seq<char>>) -> bool {
    match wanted {
        Some(w) => text::same_fold(schema_name, w),
        None => true,
    }
}

/// The latest table among the first `n` with the given name.
pub open spec fn latest_table(
    tables: Seq<TableEntry>,
    wanted: Option<Seq<char>>,
    name: Seq<char>,
    n: int,
) -> Option<int>
    decreases n,
{
    if n <= 0 {
        None
    } else if schema_fits(tables[n - 1].meta.schema_name@, wanted) && text::same_fold(
        tables[n - 1].name@,
        name,
    ) {
        Some(n - 1)
    } else {
        latest_table(tables, wanted, name, n - 1)
    }
}

/// Of tables of one name in the wanted schema the latest is found.
pub proof fn latest_table_is_found(
    tables: Seq<TableEntry>,
    wanted: Option<Seq<char>>,
    name: Seq<char>,
    n: int,
)
    requires
        0 <= n <= tables.len(),
    ensures
        match latest_table(tables, wanted, name, n) {
            Some(i) => {
                &&& 0 <= i < n && text::same_fold(tables[i].name@, name)
                &&& wanted matches Some(w) ==> text::same_fold(tables[i].meta.schema_name@, w)
                &&& forall|j: int|
                    i < j < n && text::same_fold((#[trigger] tables[j]).name@, name) ==> (
                    wanted matches Some(w) && !text::same_fold(tables[j].meta.schema_name@, w))
            },
            None => forall|j: int|
                0 <= j < n && text::same_fold((#[trigger] tables[j]).name@, name) ==> (
                wanted matches Some(w) && !text::same_fold(tables[j].meta.schema_name@, w)),
        },
    decreases n,
{
    if n > 0 {
        latest_table_is_found(tables, wanted, name, n - 1);
    }
}

/// The latest type among the first `n` with the given name.
pub open spec fn latest_type(
    types: Seq<TypeEntry>,
    wanted: Option<Seq<char>>,
    name: Seq<char>,
    n: int,
) -> Option<int>
    decreases n,
{
    if n <= 0 {
        None
    } else if schema_fits(types[n - 1].schema_name@, wanted) && text::same_fold(
        types[n - 1].name@,
        name,
    ) {
        Some(n - 1)
    } else {
        latest_type(types, wanted, name, n - 1)
    }
}

/// Of types of one name in the wanted schema the latest is found.
pub proof fn latest_type_is_found(
    types: Seq<TypeEntry>,
    wanted: Option<Seq<char>>,
    name: Seq<char>,
    n: int,
)
    requires
        0 <= n <= types.len(),
    ensures
        match latest_type(types, wanted, name, n) {
            Some(i) => {
                &&& 0 <= i < n && text::same_fold(types[i].name@, name)
                &&& wanted matches Some(w) ==> text::same_fold(types[i].schema_name@, w)
                &&& forall|j: int|
                    i < j < n && text::same_fold((#[trigger] types[j]).name@, name) ==> (
                    wanted matches Some(w) && !text::same_fold(types[j].schema_name@, w))
            },
            None => forall|j: int|
                0 <= j < n && text::same_fold((#[trigger] types[j]).name@, name) ==> (
                wanted matches Some(w) && !text::same_fold(types[j].schema_name@, w)),
        },
    decreases n,
{
    if n > 0 {
        latest_type_is_found(types, wanted, name, n - 1);
    }
}

/// The latest index among the first `n` with the given name.
pub open spec fn latest_index(
    indexes: Seq<IndexEntry>,
    wanted: Option<Seq<char>>,
    name: Seq<char>,
    n: int,
) -> Option<int>
    decreases n,
{
    if n <= 0 {
        None
    } else if schema_fits(indexes[n - 1].schema_name@, wanted) && text::same_fold(
        indexes[n - 1].name@,
        name,
    ) {
        Some(n - 1)
    } else {
        latest_index(indexes, wanted, name, n - 1)
    }
}

/// Of indexes of one name in the wanted schema the latest is found.
pub proof fn latest_index_is_found(
    indexes: Seq<IndexEntry>,
    wanted: Option<Seq<char>>,
    name: Seq<char>,
    n: int,
)
    requires
        0 <= n <= indexes.len(),
    ensures
        match latest_index(indexes, wanted, name, n) {
            Some(i) => {
                &&& 0 <= i < n && text::same_fold(indexes[i].name@, name)
                &&& wanted matches Some(w) ==> text::same_fold(indexes[i].schema_name@, w)
                &&& forall|j: int|
                    i < j < n && text::same_fold((#[trigger] indexes[j]).name@, name) ==> (
                    wanted matches Some(w) && !text::same_fold(indexes[j].schema_name@, w))
            },
            None => forall|j: int|
                0 <= j < n && text::same_fold((#[trigger] indexes[j]).name@, name) ==> (
                wanted matches Some(w) && !text::same_fold(indexes[j].schema_name@, w)),
        },
    decreases n,
{
    if n > 0 {
        latest_index_is_found(indexes, wanted, name, n - 1);
    }
}

fn fits(schema_name: &str, wanted: Option<&str>) -> (yes: bool)
    ensures
        yes == schema_fits(
            schema_name@,
            match wanted {
                Some(w) => Some(w@),
                None => None,
            },
        ),
{
    match wanted {
        Some(w) => eq_fold(schema_name, w),
        None => true,
    }
}

/// The identifier of the table that is registered after `n` others.
pub open spec fn registered_oid(n: nat) -> u32 {
    if n < 4_000_000_000 {
        (n + 16_384) as u32
    } else {
        0
    }
}

impl InMemoryCatalog {
    /// A catalog without entries.
    pub fn new() -> (c: InMemoryCatalog)
        ensures
            c.tables@ == Seq::<TableEntry>::empty(),
            c.types@ == Seq::<TypeEntry>::empty(),
            c.indexes@ == Seq::<IndexEntry>::empty(),
    {
        InMemoryCatalog { tables: Vec::new(), types: Vec::new(), indexes: Vec::new() }
    }

    /// Puts a table under a name.
    pub fn register(&mut self, name: &str, meta: TableMeta)
        ensures
            final(self).tables@.len() == old(self).tables@.len() + 1,
            final(self).tables@.drop_last() == old(self).tables@,
            final(self).tables@.last().name@ == name@,
            final(self).tables@.last().oid == registered_oid(old(self).tables@.len()),
            final(self).tables@.last().meta == meta,
            final(self).types == old(self).types,
            final(self).indexes == old(self).indexes,
    {
        let oid: u32 = if self.tables.len() < 4_000_000_000 {
            self.tables.len() as u32 + 16_384
        } else {
            0
        };
        self.tables.push(TableEntry { name: owned(name), oid, meta });
        assert(self.tables@.drop_last() =~= old(self).tables@);
    }

    fn table_index(&self, wanted: Option<&str>, name: &str) -> (at: Option<usize>)
        ensures
            (match at {
                Some(i) => Some(i as int),
                None => None,
            }) == latest_table(
                self.tables@,
                match wanted {
                    Some(w) => Some(w@),
                    None => None,
                },
                name@,
                self.tables@.len() as int,
            ),
            at matches Some(i) ==> i < self.tables.len(),
    {
        let ghost w = match wanted {
            Some(w) => Some(w@),
            None => None,
        };
        let mut n: usize = self.tables.len();
        while n > 0
            invariant
                n <= self.tables.len(),
                w == (match wanted {
                    Some(w) => Some(w@),
                    None => None,
                }),
                latest_table(self.tables@, w, name@, n as int) == latest_table(
                    self.tables@,
                    w,
                    name@,
                    self.tables@.len() as int,
                ),
            decreases n,
        {
            if fits(self.tables[n - 1].meta.schema_name.as_str(), wanted) && eq_fold(
                self.tables[n - 1].name.as_str(),
                name,
            ) {
                return Some(n - 1);
            }
            n = n - 1;
        }
        None
    }

    fn type_index(&self, wanted: Option<&str>, name: &str) -> (at: Option<usize>)
        ensures
            (match at {
                Some(i) => Some(i as int),
                None => None,
            }) == latest_type(
                self.types@,
                match wanted {
                    Some(w) => Some(w@),
                    None => None,
                },
                name@,
                self.types@.len() as int,
            ),
            at matches Some(i) ==> i < self.types.len(),
    {
        let ghost w = match wanted {
            Some(w) => Some(w@),
            None => None,
        };
        let mut n: usize = self.types.len();
        while n > 0
            invariant
                n <= self.types.len(),
                w == (match wanted {
                    Some(w) => Some(w@),
                    None => None,
                }),
                latest_type(self.types@, w, name@, n as int) == latest_type(
                    self.types@,
                    w,
                    name@,
                    self.types@.len() as int,
                ),
            decreases n,
        {
            if fits(self.types[n - 1].schema_name.as_str(), wanted) && eq_fold(
                self.types[n - 1].name.as_str(),
                name,
            ) {
                return Some(n - 1);
            }
            n = n - 1;
        }
        None
    }

    fn index_index(&self, wanted: Option<&str>, name: &str) -> (at: Option<usize>)
        ensures
            (match at {
                Some(i) => Some(i as int),
                None => None,
            }) == latest_index(
                self.indexes@,
                match wanted {
                    Some(w) => Some(w@),
                    None => None,
                },
                name@,
                self.indexes@.len() as int,
            ),
            at matches Some(i) ==> i < self.indexes.len(),
    {
        let ghost w = match wanted {
            Some(w) => Some(w@),
            None => None,
        };
        let mut n: usize = self.indexes.len();
        while n > 0
            invariant
                n <= self.indexes.len(),
                w == (match wanted {
                    Some(w) => Some(w@),
                    None => None,
                }),
                latest_index(self.indexes@, w, name@, n as int) == latest_index(
                    self.indexes@,
                    w,
                    name@,
                    self.indexes@.len() as int,
                ),
            decreases n,
        {
            if fits(self.indexes[n - 1].schema_name.as_str(), wanted) && eq_fold(
                self.indexes[n - 1].name.as_str(),
                name,
            ) {
                return Some(n - 1);
            }
            n = n - 1;
        }
        None
    }
}

impl Catalog for InMemoryCatalog {
    open spec fn model(&self) -> CatalogView {
        CatalogView {
            table: |n: Seq<char>|
                match latest_table(self.tables@, None, n, self.tables@.len() as int) {
                    Some(i) => Some(self.tables@[i].meta@),
                    None => None,
                },
            table_in: |s: Seq<char>, n: Seq<char>|
                match latest_table(self.tables@, Some(s), n, self.tables@.len() as int) {
                    Some(i) => Some(self.tables@[i].meta@),
                    None => None,
                },
            table_oid: |n: Seq<char>|
                match latest_table(self.tables@, None, n, self.tables@.len() as int) {
                    Some(i) => Some(self.tables@[i].oid),
                    None => None,
                },
            table_oid_in: |s: Seq<char>, n: Seq<char>|
                match latest_table(self.tables@, Some(s), n, self.tables@.len() as int) {
                    Some(i) => Some(self.tables@[i].oid),
                    None => None,
                },
            named_type: |n: Seq<char>|
                match latest_type(self.types@, None, n, self.types@.len() as int) {
                    Some(i) => Some(self.types@[i].data_type@),
                    None => None,
                },
            named_type_in: |s: Seq<char>, n: Seq<char>|
                match latest_type(self.types@, Some(s), n, self.types@.len() as int) {
                    Some(i) => Some(self.types@[i].data_type@),
                    None => None,
                },
            type_oid: |n: Seq<char>|
                match latest_type(self.types@, None, n, self.types@.len() as int) {
                    Some(i) => Some(self.types@[i].oid),
                    None => None,
                },
            type_oid_in: |s: Seq<char>, n: Seq<char>|
                match latest_type(self.types@, Some(s), n, self.types@.len() as int) {
                    Some(i) => Some(self.types@[i].oid),
                    None => None,
                },
            index_schema: |n: Seq<char>|
                match latest_index(self.indexes@, None, n, self.indexes@.len() as int) {
                    Some(i) => Some(self.indexes@[i].schema_name@),
                    None => None,
                },
            index_in: |s: Seq<char>, n: Seq<char>|
                latest_index(self.indexes@, Some(s), n, self.indexes@.len() as int) is Some,
        }
    }

    fn lookup_table(&self, name: &str) -> (found: Option<TableMeta>) {
        match self.table_index(None, name) {
            Some(i) => Some(self.tables[i].meta.duplicate()),
            None => None,
        }
    }

    fn lookup_table_in_schema(&self, schema_name: &str, name: &str) -> (found: Option<TableMeta>) {
        match self.table_index(Some(schema_name), name) {
            Some(i) => Some(self.tables[i].meta.duplicate()),
            None => None,
        }
    }

    fn lookup_table_oid(&self, name: &str) -> (found: Option<u32>) {
        match self.table_index(None, name) {
            Some(i) => Some(self.tables[i].oid),
            None => None,
        }
    }

    fn lookup_table_oid_in_schema(&self, schema_name: &str, name: &str) -> (found: Option<u32>) {
        match self.table_index(Some(schema_name), name) {
            Some(i) => Some(self.tables[i].oid),
            None => None,
        }
    }

    fn lookup_type(&self, name: &str) -> (found: Option<DataType>) {
        match self.type_index(None, name) {
            Some(i) => Some(self.types[i].data_type.duplicate()),
            None => None,
        }
    }

    fn lookup_type_in_schema(&self, schema_name: &str, name: &str) -> (found: Option<DataType>) {
        match self.type_index(Some(schema_name), name) {
            Some(i) => Some(self.types[i].data_type.duplicate()),
            None => None,
        }
    }

    fn lookup_type_oid(&self, name: &str) -> (found: Option<u32>) {
        match self.type_index(None, name) {
            Some(i) => Some(self.types[i].oid),
            None => None,
        }
    }

    fn lookup_type_oid_in_schema(&self, schema_name: &str, name: &str) -> (found: Option<u32>) {
        match self.type_index(Some(schema_name), name) {
            Some(i) => Some(self.types[i].oid),
            None => None,
        }
    }

    fn lookup_index_schema(&self, name: &str) -> (found: Option<String>) {
        match self.index_index(None, name) {
            Some(i) => Some(self.indexes[i].schema_name.clone()),
            None => None,
        }
    }

    fn lookup_index_in_schema(&self, schema_name: &str, name: &str) -> (found: bool) {
        self.index_index(Some(schema_name), name).is_some()
    }
}

} // verus!

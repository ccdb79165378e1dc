//! Binding of `COPY`.
use crate::ast::{
    CopyDirection, CopyFormat, CopyOption, CopySource, CopyStmt, SelectStmt,
};
use crate::binder::bound;
use crate::binder::select::bind_select;
use crate::catalog::{Catalog, CatalogView};
use crate::dialect::ddl::shared;
use crate::dialect::ddl::shared::find_positions;
use crate::dialect::dml;
use crate::dialect::dml::lookup_target_table;
use crate::error::{schema_or_mismatch, PlanError, PlanErrorView};
use crate::plan::{
    CopyPlan, CopyPlanView, LogicalCopySource, LogicalCopySourceView, LogicalPlan, LogicalPlanView,
};
use crate::query::{QueryPlan, QueryPlanView};
use crate::schema::{Field, FieldView, Schema, SchemaView};
use crate::scope::ScopeStack;
use crate::text::{chars_of, eq_fold, owned, text_eq, text_of, to_lower};
use crate::{error, query, schema, text};
use vstd::prelude::*;

verus! {

/// The position behind the last occurrence of a mark.
pub open spec fn after_last(s: Seq<char>, mark: char) -> int
    decreases s.len(),
{
    if s.len() == 0 {
        0
    } else if s.last() == mark {
        s.len() as int
    } else {
        after_last(s.drop_last(), mark)
    }
}

/// The last component of a path that names a file. Empty components and `.`
/// are passed over; a path that ends in `..` names none.
pub open spec fn file_name(path: Seq<char>) -> Option<Seq<char>>
    decreases path.len(),
{
    proof {
        lemma_after_last(path, '/');
    }
    let k = after_last(path, '/');
    let component = path.subrange(k, path.len() as int);
    if component.len() == 0 || component == "."@ {
        if k == 0 {
            None
        } else {
            file_name(path.take(k - 1))
        }
    } else if component == ".."@ {
        None
    } else {
        Some(component)
    }
}

/// What follows the last dot of a file name, where something precedes it.
pub open spec fn extension(name: Seq<char>) -> Option<Seq<char>> {
    let k = after_last(name, '.');
    if k <= 1 {
        None
    } else {
        Some(name.subrange(k, name.len() as int))
    }
}

/// Whether the file of a path has the given extension, up to case.
pub open spec fn has_extension(path: Seq<char>, wanted: Seq<char>) -> bool {
    match file_name(path) {
        None => false,
        Some(name) => match extension(name) {
            None => false,
            Some(e) => text::same_fold(e, wanted),
        },
    }
}

/// The position behind the last mark is one of the text.
pub proof fn lemma_after_last(s: Seq<char>, mark: char)
    ensures
        0 <= after_last(s, mark) <= s.len(),
    decreases s.len(),
{
    if s.len() > 0 && s.last() != mark {
        lemma_after_last(s.drop_last(), mark);
    }
}

fn position_after_last(chars: &Vec<char>, to: usize, mark: char) -> (k: usize)
    requires
        to <= chars.len(),
    ensures
        k == after_last(chars@.take(to as int), mark),
        k <= to,
{
    let ghost whole = chars@.take(to as int);
    let mut k: usize = to;
    while k > 0
        invariant
            k <= to <= chars.len(),
            whole == chars@.take(to as int),
            after_last(chars@.take(k as int), mark) == after_last(whole, mark),
        decreases k,
    {
        assert(chars@.take(k as int).drop_last() =~= chars@.take(k - 1));
        if chars[k - 1] == mark {
            return k;
        }
        k = k - 1;
    }
    0
}

fn find_file_name(path: &str) -> (found: Option<String>)
    ensures
        (match found {
            Some(s) => Some(s@),
            None => None,
        }) == file_name(path@),
{
    let chars = chars_of(path);
    let mut to: usize = chars.len();
    assert(chars@.take(to as int) =~= path@);
    while to > 0
        invariant
            to <= chars.len(),
            file_name(chars@.take(to as int)) == file_name(path@),
        decreases to,
    {
        let ghost here = chars@.take(to as int);
        let k = position_after_last(&chars, to, '/');
        assert(here.subrange(k as int, to as int) =~= chars@.subrange(k as int, to as int));
        let component = text_of(&chars, k, to);
        if k < to && !text_eq(component.as_str(), ".") {
            if text_eq(component.as_str(), "..") {
                return None;
            }
            return Some(component);
        }
        if k == 0 {
            return None;
        }
        assert(here.take(k - 1) =~= chars@.take(k - 1));
        to = k - 1;
    }
    proof {
        let here = chars@.take(0);
        assert(after_last(here, '/') == 0);
        assert(here.subrange(0, 0).len() == 0);
    }
    None
}

fn find_extension(name: &str) -> (found: Option<String>)
    ensures
        (match found {
            Some(s) => Some(s@),
            None => None,
        }) == extension(name@),
{
    let chars = chars_of(name);
    assert(chars@.take(chars@.len() as int) =~= name@);
    let k = position_after_last(&chars, chars.len(), '.');
    if k <= 1 {
        None
    } else {
        Some(text_of(&chars, k, chars.len()))
    }
}

/// Tells whether the file of a path has the given extension, up to case.
pub fn copy_file_extension_is(path: &str, wanted: &str) -> (yes: bool)
    ensures
        yes == has_extension(path@, wanted@),
{
    match find_file_name(path) {
        None => false,
        Some(name) => match find_extension(name.as_str()) {
            None => false,
            Some(e) => eq_fold(e.as_str(), wanted),
        },
    }
}

/// Whether the options state a format.
pub open spec fn states_format(options: Seq<CopyOption>) -> bool {
    exists|i: int| 0 <= i < options.len() && #[trigger] options[i] is Format
}

/// Tells whether the options state a format.
pub fn copy_has_explicit_format(options: &Vec<CopyOption>) -> (yes: bool)
    ensures
        yes == states_format(options@),
{
    let mut i: usize = 0;
    while i < options.len()
        invariant
            i <= options.len(),
            forall|j: int| 0 <= j < i ==> !(#[trigger] options@[j] is Format),
        decreases options.len() - i,
    {
        if let CopyOption::Format(_) = &options[i] {
            assert(options@[i as int] is Format);
            return true;
        }
        i = i + 1;
    }
    false
}

/// How rows are written as text or read from it.
#[derive(Debug, PartialEq)]
pub struct CopySettings {
    pub delimiter: char,
    pub null_str: String,
    pub header: bool,
    pub auto_detect: bool,
    pub ignore_errors: bool,
    pub max_errors: u64,
    pub reject_table: Option<String>,
}

/// The model of [`CopySettings`].
pub struct CopySettingsView {
    pub delimiter: char,
    pub null_str: Seq<char>,
    pub header: bool,
    pub auto_detect: bool,
    pub ignore_errors: bool,
    pub max_errors: u64,
    pub reject_table: Option<Seq<char>>,
}

impl CopySettings {
    pub open spec fn view(&self) -> CopySettingsView {
        CopySettingsView {
            delimiter: self.delimiter,
            null_str: self.null_str@,
            header: self.header,
            auto_detect: self.auto_detect,
            ignore_errors: self.ignore_errors,
            max_errors: self.max_errors,
            reject_table: match self.reject_table {
                Some(t) => Some(t@),
                None => None,
            },
        }
    }
}

/// The settings of a format where no option says otherwise.
pub open spec fn default_settings(format: CopyFormat) -> CopySettingsView {
    CopySettingsView {
        delimiter: if format == CopyFormat::Csv {
            ','
        } else {
            '\t'
        },
        null_str: if format == CopyFormat::Csv {
            ""@
        } else {
            "\\N"@
        },
        header: false,
        auto_detect: false,
        ignore_errors: false,
        max_errors: 0,
        reject_table: None,
    }
}

/// The settings after one more option.
pub open spec fn with_option(s: CopySettingsView, o: CopyOption) -> CopySettingsView {
    match o {
        CopyOption::Format(_) => s,
        CopyOption::Delimiter(c) => CopySettingsView { delimiter: c, ..s },
        CopyOption::Header(v) => CopySettingsView { header: v, ..s },
        CopyOption::AutoDetect(v) => CopySettingsView { auto_detect: v, ..s },
        CopyOption::IgnoreErrors(v) => CopySettingsView { ignore_errors: v, ..s },
        CopyOption::MaxErrors(v) => CopySettingsView { max_errors: v, ..s },
        CopyOption::RejectTable(v) => CopySettingsView {
            reject_table: Some(text::lower(v@)),
            ..s
        },
        CopyOption::Null(v) => CopySettingsView { null_str: v@, ..s },
    }
}

/// The settings of a format with the first `n` options; of two options of one
/// kind the later counts.
pub open spec fn settings_with(
    format: CopyFormat,
    options: Seq<CopyOption>,
    n: int,
) -> CopySettingsView
    decreases n,
{
    if n <= 0 || n > options.len() {
        default_settings(format)
    } else {
        with_option(settings_with(format, options, n - 1), options[n - 1])
    }
}

/// The settings of a format with all the given options.
pub open spec fn settings_of(format: CopyFormat, options: Seq<CopyOption>) -> CopySettingsView {
    settings_with(format, options, options.len() as int)
}

fn start_settings(format: CopyFormat) -> (s: CopySettings)
    ensures
        s@ == default_settings(format),
{
    let csv = format == CopyFormat::Csv;
    CopySettings {
        delimiter: if csv {
            ','
        } else {
            '\t'
        },
        null_str: if csv {
            owned("")
        } else {
            owned("\\N")
        },
        header: false,
        auto_detect: false,
        ignore_errors: false,
        max_errors: 0,
        reject_table: None,
    }
}

/// Finds the settings of a format with the given options.
pub fn copy_settings(format: CopyFormat, options: &Vec<CopyOption>) -> (s: CopySettings)
    ensures
        s@ == settings_of(format, options@),
{
    let mut s = start_settings(format);
    let mut i: usize = 0;
    while i < options.len()
        invariant
            i <= options.len(),
            s@ == settings_with(format, options@, i as int),
        decreases options.len() - i,
    {
        match &options[i] {
            CopyOption::Format(_) => {},
            CopyOption::Delimiter(c) => {
                s.delimiter = *c;
            },
            CopyOption::Header(v) => {
                s.header = *v;
            },
            CopyOption::AutoDetect(v) => {
                s.auto_detect = *v;
            },
            CopyOption::IgnoreErrors(v) => {
                s.ignore_errors = *v;
            },
            CopyOption::MaxErrors(v) => {
                s.max_errors = *v;
            },
            CopyOption::RejectTable(v) => {
                s.reject_table = Some(to_lower(v.as_str()));
            },
            CopyOption::Null(v) => {
                s.null_str = v.clone();
            },
        }
        i = i + 1;
    }
    s
}

/// Where rows come from or go to.
pub open spec fn endpoint(source: CopySource) -> LogicalCopySourceView {
    match source {
        CopySource::Stdin => LogicalCopySourceView::Stdin,
        CopySource::Stdout => LogicalCopySourceView::Stdout,
        CopySource::File(path) => LogicalCopySourceView::File(path@),
    }
}

fn bind_endpoint(source: &CopySource) -> (made: LogicalCopySource)
    ensures
        made@ == endpoint(*source),
{
    match source {
        CopySource::Stdin => LogicalCopySource::Stdin,
        CopySource::Stdout => LogicalCopySource::Stdout,
        CopySource::File(path) => LogicalCopySource::File(path.clone()),
    }
}

/// The plan of a copy.
pub open spec fn copy_plan(
    relation: Option<Seq<char>>,
    input: Option<QueryPlanView>,
    columns: Seq<usize>,
    s: CopyStmt,
    format: CopyFormat,
    row: SchemaView,
) -> LogicalPlanView {
    let settings = settings_of(format, s.options@);
    LogicalPlanView::Copy(
        CopyPlanView {
            relation,
            input,
            columns,
            direction: s.direction,
            source: endpoint(s.source),
            format,
            delimiter: settings.delimiter,
            null_str: settings.null_str,
            header: settings.header,
            auto_detect: settings.auto_detect,
            ignore_errors: settings.ignore_errors,
            max_errors: settings.max_errors,
            reject_table: settings.reject_table,
            schema: row,
        },
    )
}

fn make_copy_plan(
    relation: Option<String>,
    input: Option<QueryPlan>,
    columns: Vec<usize>,
    s: &CopyStmt,
    format: CopyFormat,
    row: Schema,
) -> (made: LogicalPlan)
    ensures
        made@ == copy_plan(
            match relation {
                Some(n) => Some(n@),
                None => None,
            },
            match input {
                Some(q) => Some(q@),
                None => None,
            },
            columns@,
            *s,
            format,
            row@,
        ),
{
    let settings = copy_settings(format, &s.options);
    LogicalPlan::Copy(
        CopyPlan {
            relation,
            input,
            columns,
            direction: s.direction,
            source: bind_endpoint(&s.source),
            format,
            delimiter: settings.delimiter,
            null_str: settings.null_str,
            header: settings.header,
            auto_detect: settings.auto_detect,
            ignore_errors: settings.ignore_errors,
            max_errors: settings.max_errors,
            reject_table: settings.reject_table,
            schema: row,
        },
    )
}

/// The columns at the given positions.
pub open spec fn fields_at(row: SchemaView, columns: Seq<usize>) -> Seq<FieldView> {
    Seq::new(columns.len(), |i: int| row.fields[columns[i] as int])
}

/// The columns that a copy carries: all of the table's where none are named.
pub open spec fn carried_row(row: SchemaView, columns: Seq<usize>) -> Result<
    SchemaView,
    PlanErrorView,
> {
    if columns.len() == 0 {
        Ok(row)
    } else {
        error::labelled_schema("COPY column projection: "@, fields_at(row, columns))
    }
}

fn bind_carried_row(row: Schema, columns: &Vec<usize>) -> (made: Result<Schema, PlanError>)
    requires
        shared::within_row(columns@, row@),
    ensures
        error::schema_outcome(made) == carried_row(row@, columns@),
{
    if columns.len() == 0 {
        return Ok(row);
    }
    let mut fields: Vec<Field> = Vec::new();
    let mut i: usize = 0;
    while i < columns.len()
        invariant
            i <= columns.len(),
            fields.len() == i,
            shared::within_row(columns@, row@),
            forall|j: int| 0 <= j < i ==> (#[trigger] fields@[j])@ == fields_at(row@, columns@)[j],
        decreases columns.len() - i,
    {
        assert(columns@[i as int] < row@.fields.len());
        fields.push(row.field_at(columns[i]).duplicate());
        i = i + 1;
    }
    assert(schema::fields_view(fields@) =~= fields_at(row@, columns@));
    schema_or_mismatch("COPY column projection: ", fields)
}

/// The format of a copy of a table: a file name that ends in `parquet` stands
/// for that format where no option states one.
pub open spec fn table_format(s: CopyStmt) -> CopyFormat {
    if states_format(s.options@) {
        s.format
    } else {
        match s.source {
            CopySource::File(path) => if has_extension(path@, "parquet"@) {
                CopyFormat::Parquet
            } else {
                s.format
            },
            _ => s.format,
        }
    }
}

fn find_table_format(s: &CopyStmt) -> (format: CopyFormat)
    ensures
        format == table_format(*s),
{
    if copy_has_explicit_format(&s.options) {
        return s.format;
    }
    match &s.source {
        CopySource::File(path) => if copy_file_extension_is(path.as_str(), "parquet") {
            CopyFormat::Parquet
        } else {
            s.format
        },
        _ => s.format,
    }
}

/// What the copy of a query is bound to.
pub open spec fn bound_query_copy(s: CopyStmt, q: SelectStmt, cat: CatalogView) -> Result<
    LogicalPlanView,
    PlanErrorView,
> {
    if s.columns@.len() > 0 {
        Err(PlanErrorView::NotSupported("COPY query target cannot specify a column list"@))
    } else {
        match bound::bound_select(q, cat, Seq::empty()) {
            Err(e) => Err(e),
            Ok(input) => if s.direction == CopyDirection::From {
                Err(PlanErrorView::NotSupported("COPY (SELECT ...) supports TO only"@))
            } else if s.source is Stdin {
                Err(PlanErrorView::NotSupported("COPY query target cannot use STDIN"@))
            } else {
                Ok(
                    copy_plan(
                        None,
                        Some(input),
                        Seq::empty(),
                        s,
                        s.format,
                        query::query_schema(input),
                    ),
                )
            },
        }
    }
}

fn bind_query_copy<C: Catalog>(s: &CopyStmt, q: &SelectStmt, catalog: &C) -> (made: Result<
    LogicalPlan,
    PlanError,
>)
    ensures
        error::plan_outcome(made) == bound_query_copy(*s, *q, catalog.model()),
{
    if s.columns.len() > 0 {
        return Err(PlanError::NotSupported("COPY query target cannot specify a column list"));
    }
    let mut scope = ScopeStack::new();
    let input = bind_select(q, catalog, &mut scope)?;
    if s.direction == CopyDirection::From {
        return Err(PlanError::NotSupported("COPY (SELECT ...) supports TO only"));
    }
    if matches!(s.source, CopySource::Stdin) {
        return Err(PlanError::NotSupported("COPY query target cannot use STDIN"));
    }
    let row = input.schema().duplicate();
    let none: Vec<usize> = Vec::new();
    assert(none@ =~= Seq::empty());
    Ok(make_copy_plan(None, Some(input), none, s, s.format, row))
}

/// What a `COPY` is bound to.
pub open spec fn bound_copy(s: CopyStmt, cat: CatalogView) -> Result<
    LogicalPlanView,
    PlanErrorView,
> {
    match s.query {
        Some(q) => bound_query_copy(s, *q, cat),
        None => match s.table {
            None => Err(PlanErrorView::NotSupported("COPY requires table or query target"@)),
            Some(table) => match dml::target_table(table, cat) {
                Err(e) => Err(e),
                Ok((relation, row)) => match shared::positions_from(s.columns@, 0, row, Seq::empty()) {
                    Err(e) => Err(e),
                    Ok(columns) => match carried_row(row, columns) {
                        Err(e) => Err(e),
                        Ok(carried) => Ok(
                            copy_plan(
                                Some(relation),
                                None,
                                columns,
                                s,
                                table_format(s),
                                carried,
                            ),
                        ),
                    },
                },
            },
        },
    }
}

/// Binds a `COPY` statement.
pub fn bind_copy<C: Catalog>(s: &CopyStmt, catalog: &C) -> (made: Result<LogicalPlan, PlanError>)
    ensures
        error::plan_outcome(made) == bound_copy(*s, catalog.model()),
{
    match &s.query {
        Some(q) => bind_query_copy(s, q, catalog),
        None => match &s.table {
            None => Err(PlanError::NotSupported("COPY requires table or query target")),
            Some(table) => {
                let (relation, row) = lookup_target_table(catalog, table)?;
                let columns = find_positions(&s.columns, &row)?;
                let carried = bind_carried_row(row, &columns)?;
                Ok(make_copy_plan(Some(relation), None, columns, s, find_table_format(s), carried))
            },
        },
    }
}

/// A copy of a table carries its columns, or as many as are named.
pub proof fn copies_carry_named_columns(s: CopyStmt, cat: CatalogView)
    requires
        s.query is None,
    ensures
        bound_copy(s, cat) matches Ok(LogicalPlanView::Copy(p)) ==> {
            &&& s.columns@.len() > 0 ==> p.schema.fields.len() == s.columns@.len()
            &&& s.columns@.len() == 0 ==> dml::target_table(s.table->Some_0, cat) == Ok::<
                (Seq<char>, SchemaView),
                PlanErrorView,
            >((p.relation->Some_0, p.schema))
        },
{
    if let Some(table) = s.table {
        if let Ok((_, row)) = dml::target_table(table, cat) {
            shared::lemma_positions_count(s.columns@, 0, row, Seq::empty());
        }
    }
}

} // verus!

//! What the plan of a `COPY` keeps of its statement.
use crate::ast::{CopyDirection, CopyFormat, CopyOption, CopySource, CopyStmt};
use crate::binder::bound;
use crate::catalog::CatalogView;
use crate::dialect::ddl::copy::CopySettingsView;
use crate::dialect::ddl::{copy, derived};
use crate::dialect::{changes, dml};
use crate::error::PlanErrorView;
use crate::plan::{LogicalCopySourceView, LogicalPlanView};
use crate::{query, text};
use vstd::prelude::*;

verus! {

/// Whether two options of a `COPY` are of one kind.
pub open spec fn same_kind(a: CopyOption, b: CopyOption) -> bool {
    match (a, b) {
        (CopyOption::Format(_), CopyOption::Format(_)) => true,
        (CopyOption::Delimiter(_), CopyOption::Delimiter(_)) => true,
        (CopyOption::Header(_), CopyOption::Header(_)) => true,
        (CopyOption::AutoDetect(_), CopyOption::AutoDetect(_)) => true,
        (CopyOption::IgnoreErrors(_), CopyOption::IgnoreErrors(_)) => true,
        (CopyOption::MaxErrors(_), CopyOption::MaxErrors(_)) => true,
        (CopyOption::RejectTable(_), CopyOption::RejectTable(_)) => true,
        (CopyOption::Null(_), CopyOption::Null(_)) => true,
        _ => false,
    }
}

/// Whether settings are what an option asks.
pub open spec fn has_option(s: CopySettingsView, option: CopyOption) -> bool {
    match option {
        CopyOption::Format(_) => true,
        CopyOption::Delimiter(c) => s.delimiter == c,
        CopyOption::Header(v) => s.header == v,
        CopyOption::AutoDetect(v) => s.auto_detect == v,
        CopyOption::IgnoreErrors(v) => s.ignore_errors == v,
        CopyOption::MaxErrors(v) => s.max_errors == v,
        CopyOption::RejectTable(v) => s.reject_table == Some(text::lower(v@)),
        CopyOption::Null(v) => s.null_str == v@,
    }
}

/// Whether settings are the usual ones about a kind of option: a comma and an empty
/// text for separated values, a tabulator and `\N` otherwise, and nothing else.
pub open spec fn is_usual(s: CopySettingsView, format: CopyFormat, kind: CopyOption) -> bool {
    match kind {
        CopyOption::Format(_) => true,
        CopyOption::Delimiter(_) => {
            &&& format == CopyFormat::Csv ==> s.delimiter == ','
            &&& format != CopyFormat::Csv ==> s.delimiter == '\t'
        },
        CopyOption::Header(_) => !s.header,
        CopyOption::AutoDetect(_) => !s.auto_detect,
        CopyOption::IgnoreErrors(_) => !s.ignore_errors,
        CopyOption::MaxErrors(_) => s.max_errors == 0,
        CopyOption::RejectTable(_) => s.reject_table is None,
        CopyOption::Null(_) => {
            &&& format == CopyFormat::Csv ==> s.null_str == ""@
            &&& format != CopyFormat::Csv ==> s.null_str == "\\N"@
        },
    }
}

/// A `COPY` does what the last of its options of a kind asks.
pub proof fn last_options_count(format: CopyFormat, options: Seq<CopyOption>, n: int, k: int)
    requires
        0 <= k < n <= options.len(),
        forall|j: int| k < j < n ==> !#[trigger] same_kind(options[j], options[k]),
    ensures
        has_option(copy::settings_with(format, options, n), options[k]),
    decreases n,
{
    if n - 1 > k {
        last_options_count(format, options, n - 1, k);
        assert(!same_kind(options[n - 1], options[k]));
    }
}

/// A `COPY` that states no option of a kind does there what is usual for its format.
pub proof fn unstated_options_are_usual(
    format: CopyFormat,
    options: Seq<CopyOption>,
    n: int,
    kind: CopyOption,
)
    requires
        0 <= n <= options.len(),
        forall|j: int| 0 <= j < n ==> !#[trigger] same_kind(options[j], kind),
    ensures
        is_usual(copy::settings_with(format, options, n), format, kind),
    decreases n,
{
    if n > 0 {
        unstated_options_are_usual(format, options, n - 1, kind);
        assert(!same_kind(options[n - 1], kind));
    }
}

/// Whether a place to copy from or to is the stated one.
pub open spec fn same_end(a: CopySource, b: LogicalCopySourceView) -> bool {
    match (a, b) {
        (CopySource::Stdin, LogicalCopySourceView::Stdin) => true,
        (CopySource::Stdout, LogicalCopySourceView::Stdout) => true,
        (CopySource::File(path), LogicalCopySourceView::File(kept)) => kept == path@,
        _ => false,
    }
}

/// A `COPY` keeps its direction, its place and its settings. It copies the rows of
/// its query, or the listed columns of the table that it names, all of them where it
/// lists none. It has its stated format where it states one.
pub proof fn copies_keep_their_clauses(s: CopyStmt, cat: CatalogView)
    requires
        s.table matches Some(name) ==> (dml::target_table(name, cat) matches Ok((_, row))
            ==> row.fields.len() <= usize::MAX),
    ensures
        copy::bound_copy(s, cat) matches Ok(p) ==> {
            &&& p matches LogicalPlanView::Copy(c)
            &&& c.direction == s.direction
            &&& same_end(s.source, c.source)
            &&& (exists|k: int| 0 <= k < s.options@.len() && #[trigger] s.options@[k] is Format)
                ==> c.format == s.format
            &&& c.format == s.format || c.format == CopyFormat::Parquet
            &&& {
                let kept = copy::settings_with(c.format, s.options@, s.options@.len() as int);
                &&& c.delimiter == kept.delimiter && c.null_str == kept.null_str
                &&& c.header == kept.header && c.auto_detect == kept.auto_detect
                &&& c.ignore_errors == kept.ignore_errors && c.max_errors == kept.max_errors
                &&& c.reject_table == kept.reject_table
            }
            &&& s.query matches Some(q) ==> {
                &&& c.relation is None && s.columns@.len() == 0
                &&& c.direction == CopyDirection::To
                &&& c.input matches Some(input)
                &&& bound::bound_select(*q, cat, Seq::empty()) == Ok::<_, PlanErrorView>(input)
                &&& c.schema == query::query_schema(input)
            }
            &&& s.query is None ==> {
                &&& c.input is None
                &&& s.table matches Some(name)
                &&& c.relation matches Some(table)
                &&& dml::target_table(name, cat) matches Ok((_, row))
                &&& changes::refers_to(name, table, row, cat)
                &&& derived::placed(s.columns@, s.columns@.len() as int, row, c.columns)
                &&& s.columns@.len() == 0 ==> c.schema == row
                &&& s.columns@.len() > 0 ==> c.schema.fields.len() == s.columns@.len() && forall|
                    k: int,
                |
                    0 <= k < c.columns.len() ==> (#[trigger] c.schema.fields[k])
                        == row.fields[c.columns[k] as int]
            }
        },
{
    if s.query is None {
        if let Some(name) = s.table {
            if let Ok((_, row)) = dml::target_table(name, cat) {
                changes::targets_are_the_named_tables(name, cat);
                derived::listed_columns_are_placed(s.columns@, 0, row, Seq::empty());
            }
        }
    }
}

/// A file without a stated format is told by its extension: one of `parquet` is of
/// that format. Everything else has the format of the statement.
pub proof fn formats_are_stated_or_told(s: CopyStmt)
    ensures
        (exists|k: int| 0 <= k < s.options@.len() && #[trigger] s.options@[k] is Format)
            ==> copy::table_format(s) == s.format,
        !(s.source is File) ==> copy::table_format(s) == s.format,
        s.source matches CopySource::File(path) ==> {
            &&& !copy::has_extension(path@, "parquet"@) ==> copy::table_format(s) == s.format
            &&& copy::has_extension(path@, "parquet"@) && (forall|k: int|
                0 <= k < s.options@.len() ==> !(#[trigger] s.options@[k] is Format))
                ==> copy::table_format(s) == CopyFormat::Parquet
        },
{
}

proof fn last_marks_are_found(s: Seq<char>, mark: char, at: int)
    requires
        -1 <= at < s.len(),
        at >= 0 ==> s[at] == mark,
        forall|k: int| at < k < s.len() ==> s[k] != mark,
    ensures
        copy::after_last(s, mark) == at + 1,
    decreases s.len(),
{
    if s.len() > 0 && at < s.len() - 1 {
        let rest = s.drop_last();
        assert forall|k: int| at < k < rest.len() implies rest[k] != mark by {
            assert(rest[k] == s[k]);
        }
        last_marks_are_found(rest, mark, at);
    }
}

/// The extension of a file stands behind the last point of its name, which does not
/// begin with it, and the name behind the last slash of its path. Its case does not
/// matter.
pub proof fn files_are_told_by_their_extension(
    dir: Seq<char>,
    stem: Seq<char>,
    ext: Seq<char>,
    wanted: Seq<char>,
)
    requires
        stem.len() > 0 && ext.len() > 0,
        dir.len() == 0 || dir.last() == '/',
        forall|k: int| 0 <= k < stem.len() ==> stem[k] != '/',
        forall|k: int| 0 <= k < ext.len() ==> ext[k] != '/' && ext[k] != '.',
    ensures
        copy::has_extension(dir + stem + seq!['.'] + ext, wanted) == text::same_fold(ext, wanted),
{
    let name = stem + seq!['.'] + ext;
    let path = dir + stem + seq!['.'] + ext;
    assert forall|k: int| dir.len() <= k < path.len() implies path[k] != '/' by {
        if k < dir.len() + stem.len() {
            assert(path[k] == stem[k - dir.len()]);
        } else if k > dir.len() + stem.len() {
            assert(path[k] == ext[k - dir.len() - stem.len() - 1]);
        }
    }
    last_marks_are_found(path, '/', dir.len() - 1);
    assert(path.subrange(dir.len() as int, path.len() as int) =~= name);
    assert forall|k: int| stem.len() < k < name.len() implies name[k] != '.' by {
        assert(name[k] == ext[k - stem.len() - 1]);
    }
    last_marks_are_found(name, '.', stem.len() as int);
    assert(name.subrange(stem.len() as int + 1, name.len() as int) =~= ext);
    reveal_strlit(".");
    reveal_strlit("..");
    assert(name.len() >= 3);
    assert("."@.len() == 1);
    assert(".."@.len() == 2);
    assert(copy::file_name(path) == Some(name));
}

} // verus!

//! Binding of `CREATE INDEX`, `DROP INDEX` and `DROP TABLE`.
use crate::ast::{
    CreateIndexStmt, DropIndexStmt, DropTableStmt, Expr, Identifier, IndexKey, ObjectName,
    StorageOption,
};
use crate::binder::ddl::synthesise_index_name;
use crate::binder::names::{object_name_explicit_namespace, object_name_simple};
use crate::binder::typing::type_error;
use crate::binder::{ddl, names, typing};
use crate::catalog::{Catalog, CatalogView, NoopCatalog};
use crate::datatype::{DataType, DataTypeView};
use crate::dialect::ddl::shared;
use crate::dialect::ddl::shared::{bind_index_method, find_positions, index_option_value_to_string};
use crate::dialect::dml::lookup_table_reference;
use crate::dialect::expr::bind_expr;
use crate::dialect::reading::{Readings, ReadingsView};
use crate::dialect::{dml, expr};
use crate::error::{PlanError, PlanErrorView};
use crate::plan::{
    CreateIndexPlan, CreateIndexPlanView, LogicalAggregatingIndex, LogicalAggregatingIndexExpr,
    LogicalAggregatingIndexExprView, LogicalAggregatingIndexView, LogicalIndexMethod,
    LogicalIndexOption, LogicalIndexOptionView, LogicalPlan, LogicalPlanView,
};
use crate::query::{AggregateFunc, ScalarExpr, ScalarExprView};
use crate::schema::{Schema, SchemaView};
use crate::scope::ScopeStack;
use crate::text::{cat2, cat3, chars_of, owned, show_usize, text_eq, text_of, to_lower, to_lower_char};
use crate::{datatype, error, list, plan, query, render, schema, text};
use vstd::prelude::*;

verus! {

/// The access method of an index.
pub open spec fn access_method(aggregating: bool, method: Option<Identifier>) -> Result<
    LogicalIndexMethod,
    PlanErrorView,
> {
    if aggregating {
        if method is Some {
            Err(
                PlanErrorView::NotSupported("CREATE AGGREGATING INDEX may not also specify USING"@),
            )
        } else {
            Ok(LogicalIndexMethod::Aggregating)
        }
    } else {
        match method {
            None => Ok(LogicalIndexMethod::Btree),
            Some(m) => match shared::index_method(m.value@) {
                Ok(x) => Ok(x),
                Err(_) => Err(
                    PlanErrorView::NotSupported(
                        "CREATE INDEX: only btree, hash, gin, gist, brin, hnsw, and ivfflat methods are supported"@,
                    ),
                ),
            },
        }
    }
}

fn find_access_method(aggregating: bool, method: &Option<Identifier>) -> (made: Result<
    LogicalIndexMethod,
    PlanError,
>)
    ensures
        error::outcome(made) == access_method(aggregating, *method),
{
    if aggregating {
        if method.is_some() {
            return Err(
                PlanError::NotSupported("CREATE AGGREGATING INDEX may not also specify USING"),
            );
        }
        return Ok(LogicalIndexMethod::Aggregating);
    }
    match method {
        None => Ok(LogicalIndexMethod::Btree),
        Some(m) => match bind_index_method(m.value.as_str()) {
            Ok(x) => Ok(x),
            Err(_) => Err(
                PlanError::NotSupported(
                    "CREATE INDEX: only btree, hash, gin, gist, brin, hnsw, and ivfflat methods are supported",
                ),
            ),
        },
    }
}

/// Whether a method finds the nearest vectors.
pub open spec fn nearest(m: LogicalIndexMethod) -> bool {
    m is Hnsw || m is IvfFlat
}

fn is_nearest(m: LogicalIndexMethod) -> (yes: bool)
    ensures
        yes == nearest(m),
{
    matches!(m, LogicalIndexMethod::Hnsw | LogicalIndexMethod::IvfFlat)
}

/// Whether a method takes that many keys and can be unique, or the complaint.
pub open spec fn method_rule(m: LogicalIndexMethod, keys: nat, unique: bool) -> Result<
    (),
    PlanErrorView,
> {
    if m is Hash && keys != 1 {
        Err(
            PlanErrorView::NotSupported(
                "CREATE INDEX USING hash: exactly one key is supported in this wave"@,
            ),
        )
    } else if m is Hash && unique {
        Err(
            PlanErrorView::NotSupported(
                "CREATE UNIQUE INDEX USING hash: hash indexes do not enforce uniqueness"@,
            ),
        )
    } else if (m is Gin || m is Gist || m is Brin) && unique {
        Err(
            PlanErrorView::NotSupported(
                "CREATE UNIQUE INDEX: gin, gist, and brin indexes do not enforce uniqueness"@,
            ),
        )
    } else if nearest(m) && unique {
        Err(
            PlanErrorView::NotSupported(
                "CREATE UNIQUE INDEX USING vector ANN: hnsw and ivfflat indexes do not enforce uniqueness"@,
            ),
        )
    } else {
        Ok(())
    }
}

fn check_method(m: LogicalIndexMethod, keys: usize, unique: bool) -> (made: Result<(), PlanError>)
    ensures
        error::outcome(made) == method_rule(m, keys as nat, unique),
{
    let hash = matches!(m, LogicalIndexMethod::Hash);
    if hash && keys != 1 {
        return Err(
            PlanError::NotSupported(
                "CREATE INDEX USING hash: exactly one key is supported in this wave",
            ),
        );
    }
    if hash && unique {
        return Err(
            PlanError::NotSupported(
                "CREATE UNIQUE INDEX USING hash: hash indexes do not enforce uniqueness",
            ),
        );
    }
    let summary = matches!(
        m,
        LogicalIndexMethod::Gin | LogicalIndexMethod::Gist | LogicalIndexMethod::Brin
    );
    if summary && unique {
        return Err(
            PlanError::NotSupported(
                "CREATE UNIQUE INDEX: gin, gist, and brin indexes do not enforce uniqueness",
            ),
        );
    }
    if is_nearest(m) && unique {
        return Err(
            PlanError::NotSupported(
                "CREATE UNIQUE INDEX USING vector ANN: hnsw and ivfflat indexes do not enforce uniqueness",
            ),
        );
    }
    Ok(())
}

/// Only B-tree indexes enforce uniqueness.
pub proof fn unique_indexes_are_btrees(m: LogicalIndexMethod, keys: nat)
    requires
        m != LogicalIndexMethod::Aggregating,
    ensures
        method_rule(m, keys, true) is Ok <==> m == LogicalIndexMethod::Btree,
{
}

/// A character of a name: letters and digits stay, in lower case.
pub open spec fn name_char(c: char) -> char {
    if 'a' <= c <= 'z' || 'A' <= c <= 'Z' || '0' <= c <= '9' {
        text::lower_char(c)
    } else {
        '_'
    }
}

/// A text as part of a name.
pub open spec fn name_chars(s: Seq<char>) -> Seq<char> {
    Seq::new(s.len(), |i: int| name_char(s[i]))
}

/// A text without the underscores at its start.
pub open spec fn without_leading(s: Seq<char>) -> Seq<char>
    decreases s.len(),
{
    if s.len() > 0 && s[0] == '_' {
        without_leading(s.drop_first())
    } else {
        s
    }
}

/// A text without the underscores at its end.
pub open spec fn without_trailing(s: Seq<char>) -> Seq<char>
    decreases s.len(),
{
    if s.len() > 0 && s.last() == '_' {
        without_trailing(s.drop_last())
    } else {
        s
    }
}

/// The part of an index name that stands for a computed key.
pub open spec fn key_name(e: ScalarExprView) -> Seq<char> {
    without_trailing(without_leading(name_chars(render::scalar_text(e))))
}

fn to_name_char(c: char) -> (out: char)
    ensures
        out == name_char(c),
{
    if ('a' <= c && c <= 'z') || ('A' <= c && c <= 'Z') || ('0' <= c && c <= '9') {
        to_lower_char(c)
    } else {
        '_'
    }
}

/// Makes the part of an index name that stands for a computed key.
pub fn index_expr_name_part(expr: &ScalarExpr) -> (out: String)
    ensures
        out@ == key_name(expr@),
{
    let shown = expr.show();
    let chars = chars_of(shown.as_str());
    let mut mapped: Vec<char> = Vec::new();
    let mut i: usize = 0;
    while i < chars.len()
        invariant
            i <= chars.len(),
            mapped.len() == i,
            forall|j: int| 0 <= j < i ==> #[trigger] mapped@[j] == name_char(chars@[j]),
        decreases chars.len() - i,
    {
        mapped.push(to_name_char(chars[i]));
        i = i + 1;
    }
    assert(mapped@ =~= name_chars(shown@));
    let n: usize = mapped.len();
    let mut from: usize = 0;
    assert(mapped@.subrange(0, n as int) =~= mapped@);
    while from < n && mapped[from] == '_'
        invariant
            from <= n,
            n == mapped.len(),
            without_leading(mapped@.subrange(from as int, n as int)) == without_leading(mapped@),
        decreases n - from,
    {
        assert(mapped@.subrange(from as int, n as int).drop_first() =~= mapped@.subrange(
            from + 1,
            n as int,
        ));
        from = from + 1;
    }
    let ghost middle = mapped@.subrange(from as int, n as int);
    assert(middle == without_leading(mapped@));
    let mut to: usize = n;
    while to > from && mapped[to - 1] == '_'
        invariant
            from <= to <= n,
            n == mapped.len(),
            without_trailing(mapped@.subrange(from as int, to as int)) == without_trailing(middle),
        decreases to - from,
    {
        assert(mapped@.subrange(from as int, to as int).drop_last() =~= mapped@.subrange(
            from as int,
            to - 1,
        ));
        to = to - 1;
    }
    text_of(&mapped, from, to)
}

/// The keys of an index.
#[derive(Debug, PartialEq)]
pub struct IndexKeys {
    pub columns: Vec<usize>,
    pub names: Vec<String>,
    pub exprs: Vec<ScalarExpr>,
    pub opclasses: Vec<Option<String>>,
    pub computed: bool,
}

/// The model of [`IndexKeys`].
pub struct IndexKeysView {
    pub columns: Seq<usize>,
    pub names: Seq<Seq<char>>,
    pub exprs: Seq<ScalarExprView>,
    pub opclasses: Seq<Option<Seq<char>>>,
    pub computed: bool,
}

impl IndexKeys {
    pub open spec fn view(&self) -> IndexKeysView {
        IndexKeysView {
            columns: self.columns@,
            names: list::strings_view(self.names@),
            exprs: query::scalars_view(self.exprs@),
            opclasses: list::optional_strings_view(self.opclasses@),
            computed: self.computed,
        }
    }
}

/// No keys.
pub open spec fn no_keys() -> IndexKeysView {
    IndexKeysView {
        columns: Seq::empty(),
        names: Seq::empty(),
        exprs: Seq::empty(),
        opclasses: Seq::empty(),
        computed: false,
    }
}

/// An optional name in lower case.
pub open spec fn lower_option(name: Option<Identifier>) -> Option<Seq<char>> {
    match name {
        Some(n) => Some(text::lower(n.value@)),
        None => None,
    }
}

fn to_lower_option(name: &Option<Identifier>) -> (out: Option<String>)
    ensures
        (match out {
            Some(x) => Some(x@),
            None => None,
        }) == lower_option(*name),
{
    match name {
        Some(n) => Some(to_lower(n.value.as_str())),
        None => None,
    }
}

/// Keys with one more: a column, or an expression.
pub open spec fn with_index_key(
    k: IndexKeysView,
    bound: ScalarExprView,
    opclass: Option<Seq<char>>,
) -> IndexKeysView {
    match bound {
        ScalarExprView::Column { name, index, .. } => IndexKeysView {
            columns: k.columns.push(index),
            names: k.names.push(text::lower(name)),
            exprs: k.exprs.push(bound),
            opclasses: k.opclasses.push(opclass),
            computed: k.computed,
        },
        _ => IndexKeysView {
            columns: k.columns,
            names: k.names.push(key_name(bound)),
            exprs: k.exprs.push(bound),
            opclasses: k.opclasses.push(opclass),
            computed: true,
        },
    }
}

fn add_index_key(keys: IndexKeys, bound: ScalarExpr, opclass: Option<String>) -> (made: IndexKeys)
    ensures
        made@ == with_index_key(
            keys@,
            bound@,
            match opclass {
                Some(x) => Some(x@),
                None => None,
            },
        ),
{
    let ghost start = keys@;
    let mut out = keys;
    match &bound {
        ScalarExpr::Column { name, index, .. } => {
            out.columns.push(*index);
            let n = to_lower(name.as_str());
            proof {
                list::lemma_strings_push(out.names@, n);
            }
            out.names.push(n);
        },
        _ => {
            out.computed = true;
            let n = index_expr_name_part(&bound);
            proof {
                list::lemma_strings_push(out.names@, n);
            }
            out.names.push(n);
        },
    }
    proof {
        query::lemma_scalars_push(out.exprs@, bound);
        list::lemma_optional_strings_push(out.opclasses@, opclass);
    }
    out.exprs.push(bound);
    out.opclasses.push(opclass);
    out
}

/// The keys of an index from the `i`-th on.
pub open spec fn keys_from(
    keys: Seq<IndexKey>,
    i: int,
    row: SchemaView,
    cat: CatalogView,
    r: ReadingsView,
    acc: IndexKeysView,
) -> Result<IndexKeysView, PlanErrorView>
    decreases keys.len() - i,
{
    if i < 0 || i >= keys.len() {
        Ok(acc)
    } else {
        match expr::bound_value(keys[i].expr, row, cat, Seq::empty(), Seq::empty(), r) {
            Err(e) => Err(e),
            Ok(bound) => keys_from(
                keys,
                i + 1,
                row,
                cat,
                r,
                with_index_key(acc, bound, lower_option(keys[i].opclass)),
            ),
        }
    }
}

/// The keys of an index. Only one key may be computed, and then there is no
/// other.
pub open spec fn index_keys(
    keys: Seq<IndexKey>,
    row: SchemaView,
    cat: CatalogView,
    r: ReadingsView,
) -> Result<IndexKeysView, PlanErrorView> {
    match keys_from(keys, 0, row, cat, r, no_keys()) {
        Err(e) => Err(e),
        Ok(k) => if !k.computed {
            Ok(k)
        } else if keys.len() != 1 {
            Err(
                PlanErrorView::NotSupported(
                    "CREATE INDEX: expression indexes support exactly one key in this wave"@,
                ),
            )
        } else {
            Ok(IndexKeysView { columns: Seq::empty(), ..k })
        },
    }
}

fn bind_keys_from<C: Catalog>(
    keys: &Vec<IndexKey>,
    row: &Schema,
    catalog: &C,
    readings: &Readings,
) -> (made:
    Result<IndexKeys, PlanError>)
    ensures
        (match made {
            Ok(k) => Ok(k@),
            Err(e) => Err(e@),
        }) == keys_from(keys@, 0, row@, catalog.model(), readings@, no_keys()),
{
    let ghost cat = catalog.model();
    let mut out = IndexKeys {
        columns: Vec::new(),
        names: Vec::new(),
        exprs: Vec::new(),
        opclasses: Vec::new(),
        computed: false,
    };
    assert(out@.columns =~= Seq::empty());
    assert(out@.names =~= Seq::empty());
    assert(out@.exprs =~= Seq::empty());
    assert(out@.opclasses =~= Seq::empty());
    let mut i: usize = 0;
    while i < keys.len()
        invariant
            i <= keys.len(),
            cat == catalog.model(),
            keys_from(keys@, i as int, row@, cat, readings@, out@) == keys_from(
                keys@,
                0,
                row@,
                cat,
                readings@,
                no_keys(),
            ),
        decreases keys.len() - i,
    {
        let mut scope = ScopeStack::new();
        let bound = bind_expr(&keys[i].expr, row, catalog, &mut scope, readings)?;
        out = add_index_key(out, bound, to_lower_option(&keys[i].opclass));
        i = i + 1;
    }
    Ok(out)
}

fn bind_index_keys<C: Catalog>(
    keys: &Vec<IndexKey>,
    row: &Schema,
    catalog: &C,
    readings: &Readings,
) -> (made:
    Result<IndexKeys, PlanError>)
    ensures
        (match made {
            Ok(k) => Ok(k@),
            Err(e) => Err(e@),
        }) == index_keys(keys@, row@, catalog.model(), readings@),
{
    let mut out = bind_keys_from(keys, row, catalog, readings)?;
    if !out.computed {
        return Ok(out);
    }
    if keys.len() != 1 {
        return Err(
            PlanError::NotSupported(
                "CREATE INDEX: expression indexes support exactly one key in this wave",
            ),
        );
    }
    let none: Vec<usize> = Vec::new();
    out.columns = none;
    assert(out@.columns =~= Seq::empty());
    Ok(out)
}

/// The operator classes of indexes on vectors.
pub open spec fn vector_opclass(n: Seq<char>) -> bool {
    n == "vector_l2_ops"@ || n == "vector_cosine_ops"@ || n == "vector_ip_ops"@ || n
        == "vector_l1_ops"@
}

fn is_vector_opclass(n: &str) -> (yes: bool)
    ensures
        yes == vector_opclass(n@),
{
    text_eq(n, "vector_l2_ops") || text_eq(n, "vector_cosine_ops") || text_eq(n, "vector_ip_ops")
        || text_eq(n, "vector_l1_ops")
}

/// Whether a type is one of vectors with a known number of dimensions.
pub open spec fn sized_vector(t: DataTypeView) -> bool {
    match t {
        DataTypeView::Vector { dims } => dims is Some,
        DataTypeView::HalfVec { dims } => dims is Some,
        _ => false,
    }
}

fn is_sized_vector(t: &DataType) -> (yes: bool)
    ensures
        yes == sized_vector(t@),
{
    match t {
        DataType::Vector { dims } => dims.is_some(),
        DataType::HalfVec { dims } => dims.is_some(),
        _ => false,
    }
}

/// Whether an index can find the nearest vectors, or the complaint.
pub open spec fn nearest_rule(s: CreateIndexStmt, k: IndexKeysView, row: SchemaView) -> Result<
    (),
    PlanErrorView,
> {
    if s.columns@.len() != 1 || k.columns.len() != 1 {
        Err(
            PlanErrorView::NotSupported(
                "CREATE INDEX USING vector ANN: exactly one vector column key is supported"@,
            ),
        )
    } else if k.columns[0] >= row.fields.len() {
        Err(
            PlanErrorView::ColumnNotFound("column index "@ + text::decimal(k.columns[0] as nat)),
        )
    } else if !sized_vector(row.fields[k.columns[0] as int].data_type) {
        Err(
            typing::type_mismatch(
                "CREATE INDEX USING vector ANN requires a vector(n) or halfvec(n) column, got "@,
                row.fields[k.columns[0] as int].data_type,
            ),
        )
    } else if k.opclasses.len() > 0 && k.opclasses[0] is Some && !vector_opclass(
        k.opclasses[0]->Some_0,
    ) {
        Err(
            PlanErrorView::NotSupported(
                "CREATE INDEX USING vector ANN: supported vector opclasses are vector_l2_ops, vector_cosine_ops, vector_ip_ops, vector_l1_ops"@,
            ),
        )
    } else if s.covering@.len() > 0 {
        Err(
            PlanErrorView::NotSupported(
                "CREATE INDEX USING vector ANN: INCLUDE columns are not supported in this wave"@,
            ),
        )
    } else if s.where_clause is Some {
        Err(
            PlanErrorView::NotSupported(
                "CREATE INDEX USING vector ANN: partial indexes are not supported in this wave"@,
            ),
        )
    } else {
        Ok(())
    }
}

fn check_nearest(s: &CreateIndexStmt, k: &IndexKeys, row: &Schema) -> (made: Result<(), PlanError>)
    ensures
        error::outcome(made) == nearest_rule(*s, k@, row@),
{
    if s.columns.len() != 1 || k.columns.len() != 1 {
        return Err(
            PlanError::NotSupported(
                "CREATE INDEX USING vector ANN: exactly one vector column key is supported",
            ),
        );
    }
    let at: usize = k.columns[0];
    if at >= row.len() {
        let number = show_usize(at);
        return Err(PlanError::ColumnNotFound(cat2("column index ", number.as_str())));
    }
    let t = &row.field_at(at).data_type;
    if !is_sized_vector(t) {
        return Err(
            type_error(
                "CREATE INDEX USING vector ANN requires a vector(n) or halfvec(n) column, got ",
                t,
            ),
        );
    }
    if k.opclasses.len() > 0 {
        assert(list::optional_strings_view(k.opclasses@)[0] == (match k.opclasses@[0] {
            Some(x) => Some(x@),
            None => None,
        }));
        if let Some(n) = &k.opclasses[0] {
            if !is_vector_opclass(n.as_str()) {
                return Err(
                    PlanError::NotSupported(
                        "CREATE INDEX USING vector ANN: supported vector opclasses are vector_l2_ops, vector_cosine_ops, vector_ip_ops, vector_l1_ops",
                    ),
                );
            }
        }
    }
    if s.covering.len() > 0 {
        return Err(
            PlanError::NotSupported(
                "CREATE INDEX USING vector ANN: INCLUDE columns are not supported in this wave",
            ),
        );
    }
    if s.where_clause.is_some() {
        return Err(
            PlanError::NotSupported(
                "CREATE INDEX USING vector ANN: partial indexes are not supported in this wave",
            ),
        );
    }
    Ok(())
}

/// The options of an index from the `i`-th on.
pub open spec fn options_from(
    options: Seq<StorageOption>,
    i: int,
    acc: Seq<LogicalIndexOptionView>,
) -> Result<
    Seq<LogicalIndexOptionView>,
    PlanErrorView,
>
    decreases options.len() - i,
{
    if i < 0 || i >= options.len() {
        Ok(acc)
    } else {
        match shared::option_text(options[i].value) {
            Err(e) => Err(e),
            Ok(value) => options_from(
                options,
                i + 1,
                acc.push(
                    LogicalIndexOptionView { name: text::lower(options[i].name.value@), value },
                ),
            ),
        }
    }
}

fn bind_options(options: &Vec<StorageOption>) -> (made: Result<Vec<LogicalIndexOption>, PlanError>)
    ensures
        (match made {
            Ok(x) => Ok(plan::index_options_view(x@)),
            Err(e) => Err(e@),
        }) == options_from(options@, 0, Seq::empty()),
{
    let mut out: Vec<LogicalIndexOption> = Vec::new();
    assert(plan::index_options_view(out@) =~= Seq::empty());
    let mut i: usize = 0;
    while i < options.len()
        invariant
            i <= options.len(),
            options_from(options@, i as int, plan::index_options_view(out@)) == options_from(
                options@,
                0,
                Seq::empty(),
            ),
        decreases options.len() - i,
    {
        let value = index_option_value_to_string(&options[i].value)?;
        let option = LogicalIndexOption { name: to_lower(options[i].name.value.as_str()), value };
        proof {
            plan::lemma_index_options_push(out@, option);
        }
        out.push(option);
        i = i + 1;
    }
    Ok(out)
}

/// Whether a payload is known, or the complaint.
pub open spec fn payload_rule(value: Seq<char>) -> Result<(), PlanErrorView> {
    let v = text::lower(value);
    if v == "f32"@ || v == "float32"@ || v == "bf16"@ || v == "bfloat16"@ || v == "int8"@ || v
        == "i8"@ {
        Ok(())
    } else {
        Err(
            PlanErrorView::NotSupported(
                "CREATE INDEX USING vector ANN payload supports f32, bf16, and int8"@,
            ),
        )
    }
}

/// Checks that a payload is known.
pub fn validate_ann_payload_option(value: &str) -> (made: Result<(), PlanError>)
    ensures
        error::outcome(made) == payload_rule(value@),
{
    let folded = to_lower(value);
    let v = folded.as_str();
    if text_eq(v, "f32") || text_eq(v, "float32") || text_eq(v, "bf16") || text_eq(v, "bfloat16")
        || text_eq(v, "int8") || text_eq(v, "i8") {
        return Ok(());
    }
    Err(
        PlanError::NotSupported(
            "CREATE INDEX USING vector ANN payload supports f32, bf16, and int8",
        ),
    )
}

/// Whether a method takes an option, or the complaint.
pub open spec fn option_rule(m: LogicalIndexMethod, o: LogicalIndexOptionView) -> Result<
    (),
    PlanErrorView,
> {
    if m is Hnsw {
        if o.name != "payload"@ {
            Err(
                PlanErrorView::NotSupported(
                    "CREATE INDEX USING hnsw supports only the payload option"@,
                ),
            )
        } else {
            payload_rule(o.value)
        }
    } else if m is IvfFlat {
        if o.name == "payload"@ {
            payload_rule(o.value)
        } else if o.name == "lists"@ || o.name == "probes"@ {
            Ok(())
        } else {
            Err(
                PlanErrorView::NotSupported(
                    "CREATE INDEX USING ivfflat supports only lists, probes, and payload options"@,
                ),
            )
        }
    } else {
        Err(
            PlanErrorView::NotSupported(
                "CREATE INDEX WITH options are supported only for hnsw and ivfflat in this wave"@,
            ),
        )
    }
}

fn check_option(m: LogicalIndexMethod, o: &LogicalIndexOption) -> (made: Result<(), PlanError>)
    ensures
        error::outcome(made) == option_rule(m, o@),
{
    match m {
        LogicalIndexMethod::Hnsw => {
            if !text_eq(o.name.as_str(), "payload") {
                return Err(
                    PlanError::NotSupported(
                        "CREATE INDEX USING hnsw supports only the payload option",
                    ),
                );
            }
            validate_ann_payload_option(o.value.as_str())
        },
        LogicalIndexMethod::IvfFlat => {
            if text_eq(o.name.as_str(), "payload") {
                return validate_ann_payload_option(o.value.as_str());
            }
            if text_eq(o.name.as_str(), "lists") || text_eq(o.name.as_str(), "probes") {
                return Ok(());
            }
            Err(
                PlanError::NotSupported(
                    "CREATE INDEX USING ivfflat supports only lists, probes, and payload options",
                ),
            )
        },
        _ => Err(
            PlanError::NotSupported(
                "CREATE INDEX WITH options are supported only for hnsw and ivfflat in this wave",
            ),
        ),
    }
}

/// Whether a method takes the options from the `i`-th on, or the first
/// complaint.
pub open spec fn options_rule(
    m: LogicalIndexMethod,
    options: Seq<LogicalIndexOptionView>,
    i: int,
) -> Result<
    (),
    PlanErrorView,
>
    decreases options.len() - i,
{
    if i < 0 || i >= options.len() {
        Ok(())
    } else {
        match option_rule(m, options[i]) {
            Err(e) => Err(e),
            Ok(_) => options_rule(m, options, i + 1),
        }
    }
}

fn check_options(m: LogicalIndexMethod, options: &Vec<LogicalIndexOption>) -> (made: Result<
    (),
    PlanError,
>)
    ensures
        error::outcome(made) == options_rule(m, plan::index_options_view(options@), 0),
{
    let ghost s = plan::index_options_view(options@);
    let mut i: usize = 0;
    while i < options.len()
        invariant
            i <= options.len(),
            s == plan::index_options_view(options@),
            options_rule(m, s, i as int) == options_rule(m, s, 0),
        decreases options.len() - i,
    {
        assert(s[i as int] == options@[i as int]@);
        check_option(m, &options[i])?;
        i = i + 1;
    }
    Ok(())
}

/// The rows that a partial index covers.
pub open spec fn index_predicate(
    e: Option<Expr>,
    row: SchemaView,
    cat: CatalogView,
    r: ReadingsView,
) -> Result<
    Option<ScalarExprView>,
    PlanErrorView,
> {
    match e {
        None => Ok(None),
        Some(e) => match expr::bound_value(e, row, cat, Seq::empty(), Seq::empty(), r) {
            Err(e) => Err(e),
            Ok(p) => if query::scalar_type(p) is Bool {
                Ok(Some(p))
            } else {
                Err(
                    typing::type_mismatch(
                        "CREATE INDEX WHERE predicate must be boolean, got "@,
                        query::scalar_type(p),
                    ),
                )
            },
        },
    }
}

fn bind_index_predicate<C: Catalog>(
    e: &Option<Expr>,
    row: &Schema,
    catalog: &C,
    readings: &Readings,
) -> (made:
    Result<Option<ScalarExpr>, PlanError>)
    ensures
        (match made {
            Ok(Some(p)) => Ok(Some(p@)),
            Ok(None) => Ok(None),
            Err(e) => Err(e@),
        }) == index_predicate(*e, row@, catalog.model(), readings@),
{
    match e {
        None => Ok(None),
        Some(e) => {
            let mut scope = ScopeStack::new();
            let p = bind_expr(e, row, catalog, &mut scope, readings)?;
            let t = p.data_type();
            if matches!(t, DataType::Bool) {
                return Ok(Some(p));
            }
            Err(type_error("CREATE INDEX WHERE predicate must be boolean, got ", &t))
        },
    }
}

/// The stated name of an index in lower case, or one made of its table and keys.
pub open spec fn index_name(s: CreateIndexStmt, names: Seq<Seq<char>>) -> Seq<char> {
    match s.name {
        Some(n) => text::lower(n.value@),
        None => ddl::default_index_name(names::simple_name(s.table), names),
    }
}

fn choose_index_name(s: &CreateIndexStmt, names: &Vec<String>) -> (out: String)
    ensures
        out@ == index_name(*s, list::strings_view(names@)),
{
    match &s.name {
        Some(n) => to_lower(n.value.as_str()),
        None => {
            let table = object_name_simple(&s.table);
            synthesise_index_name(table.as_str(), names)
        },
    }
}

/// The index that a statement makes.
pub open spec fn made_index(
    s: CreateIndexStmt,
    table_name: Seq<char>,
    namespace: Seq<char>,
    method: LogicalIndexMethod,
    k: IndexKeysView,
    options: Seq<LogicalIndexOptionView>,
    covering: Seq<usize>,
    predicate: Option<ScalarExprView>,
) -> CreateIndexPlanView {
    CreateIndexPlanView {
        index_name: index_name(s, k.names),
        index_namespace: namespace,
        table_name,
        columns: k.columns,
        key_exprs: k.exprs,
        opclasses: k.opclasses,
        index_options: options,
        covering_columns: covering,
        predicate,
        method,
        aggregating: None,
        unique: s.unique,
        primary_key: false,
        concurrently: s.concurrently,
        if_not_exists: s.if_not_exists,
        schema: schema::empty_schema(),
    }
}

fn make_index(
    s: &CreateIndexStmt,
    table_name: String,
    namespace: String,
    method: LogicalIndexMethod,
    k: IndexKeys,
    options: Vec<LogicalIndexOption>,
    covering: Vec<usize>,
    predicate: Option<ScalarExpr>,
) -> (made: CreateIndexPlan)
    ensures
        made@ == made_index(
            *s,
            table_name@,
            namespace@,
            method,
            k@,
            plan::index_options_view(options@),
            covering@,
            match predicate {
                Some(p) => Some(p@),
                None => None,
            },
        ),
{
    CreateIndexPlan {
        index_name: choose_index_name(s, &k.names),
        index_namespace: namespace,
        table_name,
        columns: k.columns,
        key_exprs: k.exprs,
        opclasses: k.opclasses,
        index_options: options,
        covering_columns: covering,
        predicate,
        method,
        aggregating: None,
        unique: s.unique,
        primary_key: false,
        concurrently: s.concurrently,
        if_not_exists: s.if_not_exists,
        schema: Schema::empty(),
    }
}

/// An index on the keys of a table, or the first complaint about it.
pub open spec fn key_index(
    s: CreateIndexStmt,
    table_name: Seq<char>,
    namespace: Seq<char>,
    row: SchemaView,
    method: LogicalIndexMethod,
    cat: CatalogView,
    r: ReadingsView,
) -> Result<CreateIndexPlanView, PlanErrorView> {
    match method_rule(method, s.columns@.len(), s.unique) {
        Err(e) => Err(e),
        Ok(_) => match index_keys(s.columns@, row, cat, r) {
            Err(e) => Err(e),
            Ok(k) => match (if nearest(method) {
                nearest_rule(s, k, row)
            } else {
                Ok(())
            }) {
                Err(e) => Err(e),
                Ok(_) => match options_from(s.options@, 0, Seq::empty()) {
                    Err(e) => Err(e),
                    Ok(options) => match options_rule(method, options, 0) {
                        Err(e) => Err(e),
                        Ok(_) => match shared::positions_from(s.covering@, 0, row, Seq::empty()) {
                            Err(e) => Err(e),
                            Ok(covering) => match index_predicate(s.where_clause, row, cat, r) {
                                Err(e) => Err(e),
                                Ok(predicate) => Ok(
                                    made_index(
                                        s,
                                        table_name,
                                        namespace,
                                        method,
                                        k,
                                        options,
                                        covering,
                                        predicate,
                                    ),
                                ),
                            },
                        },
                    },
                },
            },
        },
    }
}

/// An index with its outcome as models.
pub open spec fn index_outcome(r: Result<CreateIndexPlan, PlanError>) -> Result<
    CreateIndexPlanView,
    PlanErrorView,
> {
    match r {
        Ok(p) => Ok(p@),
        Err(e) => Err(e@),
    }
}

fn bind_key_index<C: Catalog>(
    s: &CreateIndexStmt,
    table_name: String,
    namespace: String,
    row: &Schema,
    method: LogicalIndexMethod,
    catalog: &C,
    readings: &Readings,
) -> (made: Result<CreateIndexPlan, PlanError>)
    ensures
        index_outcome(made) == key_index(
            *s,
            table_name@,
            namespace@,
            row@,
            method,
            catalog.model(),
            readings@,
        ),
{
    check_method(method, s.columns.len(), s.unique)?;
    let k = bind_index_keys(&s.columns, row, catalog, readings)?;
    if is_nearest(method) {
        check_nearest(s, &k, row)?;
    }
    let options = bind_options(&s.options)?;
    check_options(method, &options)?;
    let covering = find_positions(&s.covering, row)?;
    let predicate = bind_index_predicate(&s.where_clause, row, catalog, readings)?;
    Ok(make_index(s, table_name, namespace, method, k, options, covering, predicate))
}

/// The catalog in which no name refers to anything.
pub open spec fn no_names() -> CatalogView {
    NoopCatalog.model()
}

/// Whether the arguments are a single star.
pub open spec fn star_only(args: Seq<Expr>) -> bool {
    args.len() == 1 && (args[0] matches Expr::Column { name } && name.parts@.len() == 1
        && name.parts@[0].value@ == "*"@)
}

fn is_star_only(args: &Vec<Expr>) -> (yes: bool)
    ensures
        yes == star_only(args@),
{
    if args.len() != 1 {
        return false;
    }
    match &args[0] {
        Expr::Column { name } => name.parts.len() == 1 && text_eq(name.parts[0].value.as_str(), "*"),
        _ => false,
    }
}

/// The sum of a column that an index keeps.
pub open spec fn kept_sum(arg: Expr, row: SchemaView, r: ReadingsView) -> Result<
    LogicalAggregatingIndexExprView,
    PlanErrorView,
> {
    match expr::bound_value(arg, row, no_names(), Seq::empty(), Seq::empty(), r) {
        Err(e) => Err(e),
        Ok(ScalarExprView::Column { name, index, data_type }) => if !datatype::numeric(data_type) {
            Err(
                typing::type_mismatch(
                    "CREATE AGGREGATING INDEX sum("@ + name + ") requires numeric input, got "@,
                    data_type,
                ),
            )
        } else {
            Ok(
                LogicalAggregatingIndexExprView {
                    func: AggregateFunc::Sum,
                    arg_column: Some(index),
                    output_name: "sum("@ + text::lower(name) + ")"@,
                    data_type: if data_type is Float32 || data_type is Float64 {
                        DataTypeView::Float64
                    } else {
                        DataTypeView::Int64
                    },
                },
            )
        },
        Ok(_) => Err(
            PlanErrorView::NotSupported(
                "CREATE AGGREGATING INDEX sum() argument must be a bare column"@,
            ),
        ),
    }
}

/// An aggregate of an index with its outcome as models.
pub open spec fn kept_outcome(r: Result<LogicalAggregatingIndexExpr, PlanError>) -> Result<
    LogicalAggregatingIndexExprView,
    PlanErrorView,
> {
    match r {
        Ok(x) => Ok(x@),
        Err(e) => Err(e@),
    }
}

fn bind_kept_sum(arg: &Expr, row: &Schema, readings: &Readings) -> (made: Result<
    LogicalAggregatingIndexExpr,
    PlanError,
>)
    ensures
        kept_outcome(made) == kept_sum(*arg, row@, readings@),
{
    let mut scope = ScopeStack::new();
    let none = NoopCatalog;
    let bound = bind_expr(arg, row, &none, &mut scope, readings)?;
    match &bound {
        ScalarExpr::Column { name, index, data_type } => {
            if !data_type.is_numeric() {
                let before = cat3(
                    "CREATE AGGREGATING INDEX sum(",
                    name.as_str(),
                    ") requires numeric input, got ",
                );
                return Err(type_error(before.as_str(), data_type));
            }
            let folded = to_lower(name.as_str());
            let out_type = match data_type {
                DataType::Float32 => DataType::Float64,
                DataType::Float64 => DataType::Float64,
                _ => DataType::Int64,
            };
            Ok(
                LogicalAggregatingIndexExpr {
                    func: AggregateFunc::Sum,
                    arg_column: Some(*index),
                    output_name: cat3("sum(", folded.as_str(), ")"),
                    data_type: out_type,
                },
            )
        },
        _ => Err(
            PlanError::NotSupported(
                "CREATE AGGREGATING INDEX sum() argument must be a bare column",
            ),
        ),
    }
}

/// The aggregate that an index keeps for a call.
pub open spec fn kept_aggregate(e: Expr, row: SchemaView, r: ReadingsView) -> Result<
    LogicalAggregatingIndexExprView,
    PlanErrorView,
> {
    match e {
        Expr::Call { name, args, distinct, over, .. } => if distinct || over is Some {
            Err(
                PlanErrorView::NotSupported(
                    "CREATE AGGREGATING INDEX does not support DISTINCT or window aggregates"@,
                ),
            )
        } else if names::simple_name(name) == "count"@ && (args@.len() == 0 || star_only(args@)) {
            Ok(
                LogicalAggregatingIndexExprView {
                    func: AggregateFunc::CountStar,
                    arg_column: None,
                    output_name: "count"@,
                    data_type: DataTypeView::Int64,
                },
            )
        } else if names::simple_name(name) == "sum"@ && args@.len() == 1 {
            kept_sum(args@[0], row, r)
        } else {
            Err(
                PlanErrorView::NotSupported(
                    "CREATE AGGREGATING INDEX supports sum(column) and count(*) in this wave"@,
                ),
            )
        },
        _ => Err(
            PlanErrorView::NotSupported(
                "CREATE AGGREGATING INDEX aggregate key must be a function call"@,
            ),
        ),
    }
}

/// Binds the aggregate that an index keeps for a call.
pub fn bind_aggregating_index_call(
    expr: &Expr,
    table_schema: &Schema,
    readings: &Readings,
) -> (made:
    Result<LogicalAggregatingIndexExpr, PlanError>)
    ensures
        kept_outcome(made) == kept_aggregate(*expr, table_schema@, readings@),
{
    match expr {
        Expr::Call { name, args, distinct, over, .. } => {
            if *distinct || over.is_some() {
                return Err(
                    PlanError::NotSupported(
                        "CREATE AGGREGATING INDEX does not support DISTINCT or window aggregates",
                    ),
                );
            }
            let func = object_name_simple(name);
            if text_eq(func.as_str(), "count") && (args.len() == 0 || is_star_only(args)) {
                return Ok(
                    LogicalAggregatingIndexExpr {
                        func: AggregateFunc::CountStar,
                        arg_column: None,
                        output_name: owned("count"),
                        data_type: DataType::Int64,
                    },
                );
            }
            if text_eq(func.as_str(), "sum") && args.len() == 1 {
                return bind_kept_sum(&args[0], table_schema, readings);
            }
            Err(
                PlanError::NotSupported(
                    "CREATE AGGREGATING INDEX supports sum(column) and count(*) in this wave",
                ),
            )
        },
        _ => Err(
            PlanError::NotSupported(
                "CREATE AGGREGATING INDEX aggregate key must be a function call",
            ),
        ),
    }
}

/// The keys of an aggregating index: the columns that group, then the
/// aggregates.
#[derive(Debug, PartialEq)]
pub struct GroupKeys {
    pub columns: Vec<usize>,
    pub exprs: Vec<ScalarExpr>,
    pub names: Vec<String>,
    pub aggregates: Vec<LogicalAggregatingIndexExpr>,
}

/// The model of [`GroupKeys`].
pub struct GroupKeysView {
    pub columns: Seq<usize>,
    pub exprs: Seq<ScalarExprView>,
    pub names: Seq<Seq<char>>,
    pub aggregates: Seq<LogicalAggregatingIndexExprView>,
}

impl GroupKeys {
    pub open spec fn view(&self) -> GroupKeysView {
        GroupKeysView {
            columns: self.columns@,
            exprs: query::scalars_view(self.exprs@),
            names: list::strings_view(self.names@),
            aggregates: plan::index_aggregates_view(self.aggregates@),
        }
    }
}

/// No keys.
pub open spec fn no_groups() -> GroupKeysView {
    GroupKeysView {
        columns: Seq::empty(),
        exprs: Seq::empty(),
        names: Seq::empty(),
        aggregates: Seq::empty(),
    }
}

/// The type of the column at a position, or the given type where there is none.
pub open spec fn type_at(row: SchemaView, index: usize, otherwise: DataTypeView) -> DataTypeView {
    if index < row.fields.len() {
        row.fields[index as int].data_type
    } else {
        otherwise
    }
}

/// Keys with one more column that groups.
pub open spec fn with_group(g: GroupKeysView, e: Expr, row: SchemaView, r: ReadingsView) -> Result<
    GroupKeysView,
    PlanErrorView,
> {
    if g.aggregates.len() > 0 {
        Err(
            PlanErrorView::NotSupported(
                "CREATE AGGREGATING INDEX group columns must precede aggregates"@,
            ),
        )
    } else {
        match expr::bound_value(e, row, no_names(), Seq::empty(), Seq::empty(), r) {
            Err(e) => Err(e),
            Ok(ScalarExprView::Column { name, index, data_type }) => Ok(
                GroupKeysView {
                    columns: g.columns.push(index),
                    exprs: g.exprs.push(
                        ScalarExprView::Column {
                            name,
                            index,
                            data_type: type_at(row, index, data_type),
                        },
                    ),
                    names: g.names.push(text::lower(name)),
                    aggregates: g.aggregates,
                },
            ),
            Ok(_) => Err(
                PlanErrorView::NotSupported(
                    "CREATE AGGREGATING INDEX group keys must be bare columns"@,
                ),
            ),
        }
    }
}

/// Keys of an aggregating index with their outcome as models.
pub open spec fn groups_outcome(r: Result<GroupKeys, PlanError>) -> Result<
    GroupKeysView,
    PlanErrorView,
> {
    match r {
        Ok(x) => Ok(x@),
        Err(e) => Err(e@),
    }
}

fn add_group(g: GroupKeys, e: &Expr, row: &Schema, readings: &Readings) -> (made: Result<
    GroupKeys,
    PlanError,
>)
    ensures
        groups_outcome(made) == with_group(g@, *e, row@, readings@),
{
    if g.aggregates.len() > 0 {
        return Err(
            PlanError::NotSupported(
                "CREATE AGGREGATING INDEX group columns must precede aggregates",
            ),
        );
    }
    let mut scope = ScopeStack::new();
    let none = NoopCatalog;
    let bound = bind_expr(e, row, &none, &mut scope, readings)?;
    match &bound {
        ScalarExpr::Column { name, index, data_type } => {
            let ty = if *index < row.len() {
                row.field_at(*index).data_type.duplicate()
            } else {
                data_type.duplicate()
            };
            let folded = to_lower(name.as_str());
            let column = ScalarExpr::Column { name: name.clone(), index: *index, data_type: ty };
            let mut out = g;
            proof {
                query::lemma_scalars_push(out.exprs@, column);
                list::lemma_strings_push(out.names@, folded);
            }
            out.columns.push(*index);
            out.exprs.push(column);
            out.names.push(folded);
            Ok(out)
        },
        _ => Err(
            PlanError::NotSupported("CREATE AGGREGATING INDEX group keys must be bare columns"),
        ),
    }
}

/// Keys with one more.
pub open spec fn with_group_key(
    g: GroupKeysView,
    k: IndexKey,
    row: SchemaView,
    r: ReadingsView,
) -> Result<
    GroupKeysView,
    PlanErrorView,
> {
    if k.opclass is Some {
        Err(
            PlanErrorView::NotSupported(
                "CREATE AGGREGATING INDEX does not support operator classes"@,
            ),
        )
    } else if k.expr is Call {
        match kept_aggregate(k.expr, row, r) {
            Err(e) => Err(e),
            Ok(a) => Ok(
                GroupKeysView {
                    names: g.names.push(a.output_name),
                    aggregates: g.aggregates.push(a),
                    ..g
                },
            ),
        }
    } else {
        with_group(g, k.expr, row, r)
    }
}

fn add_group_key(g: GroupKeys, k: &IndexKey, row: &Schema, readings: &Readings) -> (made: Result<
    GroupKeys,
    PlanError,
>)
    ensures
        groups_outcome(made) == with_group_key(g@, *k, row@, readings@),
{
    if k.opclass.is_some() {
        return Err(
            PlanError::NotSupported("CREATE AGGREGATING INDEX does not support operator classes"),
        );
    }
    match &k.expr {
        Expr::Call { .. } => {
            let a = bind_aggregating_index_call(&k.expr, row, readings)?;
            let name = a.output_name.clone();
            let mut out = g;
            proof {
                list::lemma_strings_push(out.names@, name);
                plan::lemma_index_aggregates_push(out.aggregates@, a);
            }
            out.names.push(name);
            out.aggregates.push(a);
            Ok(out)
        },
        _ => add_group(g, &k.expr, row, readings),
    }
}

/// The keys of an aggregating index from the `i`-th on.
pub open spec fn group_keys_from(
    keys: Seq<IndexKey>,
    i: int,
    row: SchemaView,
    r: ReadingsView,
    acc: GroupKeysView,
) -> Result<GroupKeysView, PlanErrorView>
    decreases keys.len() - i,
{
    if i < 0 || i >= keys.len() {
        Ok(acc)
    } else {
        match with_group_key(acc, keys[i], row, r) {
            Err(e) => Err(e),
            Ok(next) => group_keys_from(keys, i + 1, row, r, next),
        }
    }
}

fn bind_group_keys(keys: &Vec<IndexKey>, row: &Schema, readings: &Readings) -> (made: Result<
    GroupKeys,
    PlanError,
>)
    ensures
        groups_outcome(made) == group_keys_from(keys@, 0, row@, readings@, no_groups()),
{
    let mut out = GroupKeys {
        columns: Vec::new(),
        exprs: Vec::new(),
        names: Vec::new(),
        aggregates: Vec::new(),
    };
    assert(out@.columns =~= Seq::empty());
    assert(out@.exprs =~= Seq::empty());
    assert(out@.names =~= Seq::empty());
    assert(out@.aggregates =~= Seq::empty());
    let mut i: usize = 0;
    while i < keys.len()
        invariant
            i <= keys.len(),
            group_keys_from(keys@, i as int, row@, readings@, out@) == group_keys_from(
                keys@,
                0,
                row@,
                readings@,
                no_groups(),
            ),
        decreases keys.len() - i,
    {
        out = add_group_key(out, &keys[i], row, readings)?;
        i = i + 1;
    }
    Ok(out)
}

/// Whether an aggregating index has no other clauses, or the first complaint.
pub open spec fn aggregating_rule(s: CreateIndexStmt) -> Result<(), PlanErrorView> {
    if s.unique {
        Err(PlanErrorView::NotSupported("CREATE UNIQUE AGGREGATING INDEX is not supported"@))
    } else if s.concurrently {
        Err(PlanErrorView::NotSupported("CREATE AGGREGATING INDEX CONCURRENTLY is not supported"@))
    } else if s.covering@.len() > 0 {
        Err(PlanErrorView::NotSupported("CREATE AGGREGATING INDEX does not support INCLUDE"@))
    } else if s.where_clause is Some {
        Err(
            PlanErrorView::NotSupported(
                "CREATE AGGREGATING INDEX does not support partial predicates in this wave"@,
            ),
        )
    } else if s.options@.len() > 0 {
        Err(
            PlanErrorView::NotSupported(
                "CREATE AGGREGATING INDEX does not support WITH options in this wave"@,
            ),
        )
    } else {
        Ok(())
    }
}

fn check_aggregating(s: &CreateIndexStmt) -> (made: Result<(), PlanError>)
    ensures
        error::outcome(made) == aggregating_rule(*s),
{
    if s.unique {
        return Err(PlanError::NotSupported("CREATE UNIQUE AGGREGATING INDEX is not supported"));
    }
    if s.concurrently {
        return Err(
            PlanError::NotSupported("CREATE AGGREGATING INDEX CONCURRENTLY is not supported"),
        );
    }
    if s.covering.len() > 0 {
        return Err(PlanError::NotSupported("CREATE AGGREGATING INDEX does not support INCLUDE"));
    }
    if s.where_clause.is_some() {
        return Err(
            PlanError::NotSupported(
                "CREATE AGGREGATING INDEX does not support partial predicates in this wave",
            ),
        );
    }
    if s.options.len() > 0 {
        return Err(
            PlanError::NotSupported(
                "CREATE AGGREGATING INDEX does not support WITH options in this wave",
            ),
        );
    }
    Ok(())
}

/// As many absent names as given.
pub open spec fn absent(n: nat) -> Seq<Option<Seq<char>>> {
    Seq::new(n, |i: int| None)
}

fn absent_names(n: usize) -> (out: Vec<Option<String>>)
    ensures
        list::optional_strings_view(out@) == absent(n as nat),
{
    let mut out: Vec<Option<String>> = Vec::new();
    let mut i: usize = 0;
    while i < n
        invariant
            i <= n,
            out.len() == i,
            forall|j: int| 0 <= j < i ==> (#[trigger] out@[j]) is None,
        decreases n - i,
    {
        out.push(None);
        i = i + 1;
    }
    assert(list::optional_strings_view(out@) =~= absent(n as nat));
    out
}

/// The aggregating index that a statement makes.
pub open spec fn aggregating_index(
    s: CreateIndexStmt,
    table_name: Seq<char>,
    namespace: Seq<char>,
    row: SchemaView,
    r: ReadingsView,
) -> Result<CreateIndexPlanView, PlanErrorView> {
    match aggregating_rule(s) {
        Err(e) => Err(e),
        Ok(_) => match group_keys_from(s.columns@, 0, row, r, no_groups()) {
            Err(e) => Err(e),
            Ok(g) => if g.columns.len() == 0 || g.aggregates.len() == 0 {
                Err(
                    PlanErrorView::NotSupported(
                        "CREATE AGGREGATING INDEX requires at least one group column and one aggregate"@,
                    ),
                )
            } else {
                Ok(
                    CreateIndexPlanView {
                        index_name: index_name(s, g.names),
                        index_namespace: namespace,
                        table_name,
                        columns: g.columns,
                        key_exprs: g.exprs,
                        opclasses: absent(g.columns.len()),
                        index_options: Seq::empty(),
                        covering_columns: Seq::empty(),
                        predicate: None,
                        method: LogicalIndexMethod::Aggregating,
                        aggregating: Some(
                            LogicalAggregatingIndexView {
                                group_columns: g.columns,
                                aggregates: g.aggregates,
                            },
                        ),
                        unique: false,
                        primary_key: false,
                        concurrently: false,
                        if_not_exists: s.if_not_exists,
                        schema: schema::empty_schema(),
                    },
                )
            },
        },
    }
}

/// Binds an aggregating index.
pub fn bind_create_aggregating_index(
    s: &CreateIndexStmt,
    table_name: String,
    namespace: String,
    table_schema: &Schema,
    readings: &Readings,
) -> (made: Result<CreateIndexPlan, PlanError>)
    ensures
        index_outcome(made) == aggregating_index(
            *s,
            table_name@,
            namespace@,
            table_schema@,
            readings@,
        ),
{
    check_aggregating(s)?;
    let g = bind_group_keys(&s.columns, table_schema, readings)?;
    if g.columns.len() == 0 || g.aggregates.len() == 0 {
        return Err(
            PlanError::NotSupported(
                "CREATE AGGREGATING INDEX requires at least one group column and one aggregate",
            ),
        );
    }
    let made = CreateIndexPlan {
        index_name: choose_index_name(s, &g.names),
        index_namespace: namespace,
        table_name,
        columns: list::copy_list(&g.columns),
        key_exprs: g.exprs,
        opclasses: absent_names(g.columns.len()),
        index_options: Vec::new(),
        covering_columns: Vec::new(),
        predicate: None,
        method: LogicalIndexMethod::Aggregating,
        aggregating: Some(
            LogicalAggregatingIndex { group_columns: g.columns, aggregates: g.aggregates },
        ),
        unique: false,
        primary_key: false,
        concurrently: false,
        if_not_exists: s.if_not_exists,
        schema: Schema::empty(),
    };
    assert(made@.index_options =~= Seq::empty());
    assert(made@.covering_columns =~= Seq::empty());
    Ok(made)
}

/// The index that a `CREATE INDEX` makes.
pub open spec fn created_index(s: CreateIndexStmt, cat: CatalogView, r: ReadingsView) -> Result<
    CreateIndexPlanView,
    PlanErrorView,
> {
    match dml::named_table(s.table, cat) {
        Err(e) => Err(e),
        Ok((table_name, meta)) => match access_method(s.aggregating, s.method) {
            Err(e) => Err(e),
            Ok(method) => if s.columns@.len() == 0 {
                Err(PlanErrorView::NotSupported("CREATE INDEX: zero key columns"@))
            } else if method is Aggregating {
                aggregating_index(s, table_name, meta.schema_name, meta.schema, r)
            } else {
                key_index(s, table_name, meta.schema_name, meta.schema, method, cat, r)
            },
        },
    }
}

/// What a `CREATE INDEX` is bound to.
pub open spec fn bound_create_index(
    s: CreateIndexStmt,
    cat: CatalogView,
    r: ReadingsView,
) -> Result<
    LogicalPlanView,
    PlanErrorView,
> {
    match created_index(s, cat, r) {
        Err(e) => Err(e),
        Ok(p) => Ok(LogicalPlanView::CreateIndex(p)),
    }
}

/// Binds a `CREATE INDEX` statement.
pub fn bind_create_index<C: Catalog>(
    s: &CreateIndexStmt,
    catalog: &C,
    readings: &Readings,
) -> (made:
    Result<LogicalPlan, PlanError>)
    ensures
        error::plan_outcome(made) == bound_create_index(*s, catalog.model(), readings@),
{
    let (table_name, meta) = lookup_table_reference(catalog, &s.table)?;
    let method = find_access_method(s.aggregating, &s.method)?;
    if s.columns.len() == 0 {
        return Err(PlanError::NotSupported("CREATE INDEX: zero key columns"));
    }
    if matches!(method, LogicalIndexMethod::Aggregating) {
        let made = bind_create_aggregating_index(
            s,
            table_name,
            meta.schema_name,
            &meta.schema,
            readings,
        )?;
        return Ok(LogicalPlan::CreateIndex(made));
    }
    let made = bind_key_index(
        s,
        table_name,
        meta.schema_name,
        &meta.schema,
        method,
        catalog,
        readings,
    )?;
    Ok(LogicalPlan::CreateIndex(made))
}

proof fn lemma_keys_count(
    keys: Seq<IndexKey>,
    i: int,
    row: SchemaView,
    cat: CatalogView,
    r: ReadingsView,
    acc: IndexKeysView,
)
    requires
        0 <= i <= keys.len(),
        acc.exprs.len() == acc.opclasses.len(),
        acc.exprs.len() == acc.names.len(),
        !acc.computed ==> acc.columns.len() == acc.exprs.len(),
    ensures
        keys_from(keys, i, row, cat, r, acc) matches Ok(k) ==> {
            &&& k.exprs.len() == acc.exprs.len() + keys.len() - i
            &&& k.opclasses.len() == k.exprs.len()
            &&& k.names.len() == k.exprs.len()
            &&& !k.computed ==> k.columns.len() == k.exprs.len()
        },
    decreases keys.len() - i,
{
    if i < keys.len() {
        if let Ok(bound) = expr::bound_value(
            keys[i].expr,
            row,
            cat,
            Seq::empty(),
            Seq::empty(),
            r,
        ) {
            lemma_keys_count(
                keys,
                i + 1,
                row,
                cat,
                r,
                with_index_key(acc, bound, lower_option(keys[i].opclass)),
            );
        }
    }
}

/// An accepted index has an expression and an operator class for each stated
/// key. Either each key is a column, or the only key is computed and no column
/// is noted.
pub proof fn index_keys_match(
    keys: Seq<IndexKey>,
    row: SchemaView,
    cat: CatalogView,
    r: ReadingsView,
)
    ensures
        index_keys(keys, row, cat, r) matches Ok(k) ==> {
            &&& k.exprs.len() == keys.len()
            &&& k.opclasses.len() == keys.len()
            &&& k.columns.len() == keys.len() || (keys.len() == 1 && k.columns.len() == 0)
        },
{
    lemma_keys_count(keys, 0, row, cat, r, no_keys());
}

/// The existing tables of the given names from the `i`-th on. A missing one is
/// left out where that is allowed.
pub open spec fn existing_tables(
    names: Seq<ObjectName>,
    i: int,
    if_exists: bool,
    cat: CatalogView,
    acc: Seq<Seq<char>>,
) -> Result<Seq<Seq<char>>, PlanErrorView>
    decreases names.len() - i,
{
    if i < 0 || i >= names.len() {
        Ok(acc)
    } else {
        match dml::named_table(names[i], cat) {
            Ok((name, _)) => existing_tables(names, i + 1, if_exists, cat, acc.push(name)),
            Err(_) => if if_exists {
                existing_tables(names, i + 1, if_exists, cat, acc)
            } else {
                Err(PlanErrorView::TableNotFound(names::simple_name(names[i])))
            },
        }
    }
}

fn find_existing_tables<C: Catalog>(names: &Vec<ObjectName>, if_exists: bool, catalog: &C) -> (made:
    Result<Vec<String>, PlanError>)
    ensures
        (match made {
            Ok(x) => Ok(list::strings_view(x@)),
            Err(e) => Err(e@),
        }) == existing_tables(names@, 0, if_exists, catalog.model(), Seq::empty()),
{
    let ghost cat = catalog.model();
    let mut out: Vec<String> = Vec::new();
    assert(list::strings_view(out@) =~= Seq::empty());
    let mut i: usize = 0;
    while i < names.len()
        invariant
            i <= names.len(),
            cat == catalog.model(),
            existing_tables(names@, i as int, if_exists, cat, list::strings_view(out@))
                == existing_tables(names@, 0, if_exists, cat, Seq::empty()),
        decreases names.len() - i,
    {
        match lookup_table_reference(catalog, &names[i]) {
            Ok((name, _)) => {
                proof {
                    list::lemma_strings_push(out@, name);
                }
                out.push(name);
            },
            Err(_) => {
                if !if_exists {
                    return Err(PlanError::TableNotFound(object_name_simple(&names[i])));
                }
            },
        }
        i = i + 1;
    }
    Ok(out)
}

/// What a `DROP TABLE` is bound to.
pub open spec fn bound_drop_table(s: DropTableStmt, cat: CatalogView) -> Result<
    LogicalPlanView,
    PlanErrorView,
> {
    match existing_tables(s.names@, 0, s.if_exists, cat, Seq::empty()) {
        Err(e) => Err(e),
        Ok(tables) => Ok(
            LogicalPlanView::DropTable {
                tables,
                if_exists: s.if_exists,
                cascade: s.cascade,
                schema: schema::empty_schema(),
            },
        ),
    }
}

/// Binds a `DROP TABLE` statement.
pub fn bind_drop_table<C: Catalog>(s: &DropTableStmt, catalog: &C) -> (made: Result<
    LogicalPlan,
    PlanError,
>)
    ensures
        error::plan_outcome(made) == bound_drop_table(*s, catalog.model()),
{
    let tables = find_existing_tables(&s.names, s.if_exists, catalog)?;
    Ok(
        LogicalPlan::DropTable {
            tables,
            if_exists: s.if_exists,
            cascade: s.cascade,
            schema: Schema::empty(),
        },
    )
}

/// Dropping tables with `IF EXISTS` never fails.
pub proof fn tolerant_drops_succeed(s: DropTableStmt, cat: CatalogView)
    requires
        s.if_exists,
    ensures
        bound_drop_table(s, cat) is Ok,
{
    lemma_tolerant(s.names@, 0, cat, Seq::empty());
}

proof fn lemma_tolerant(names: Seq<ObjectName>, i: int, cat: CatalogView, acc: Seq<Seq<char>>)
    requires
        0 <= i <= names.len(),
    ensures
        existing_tables(names, i, true, cat, acc) is Ok,
    decreases names.len() - i,
{
    if i < names.len() {
        match dml::named_table(names[i], cat) {
            Ok((name, _)) => lemma_tolerant(names, i + 1, cat, acc.push(name)),
            Err(_) => lemma_tolerant(names, i + 1, cat, acc),
        }
    }
}

/// Where an index of the given name is, as a plan states it: its name, and its
/// schema unless that is the default one and not stated.
pub open spec fn located_index(name: ObjectName, cat: CatalogView) -> Result<
    (Seq<char>, Option<Seq<char>>),
    PlanErrorView,
> {
    let simple = names::simple_name(name);
    match names::explicit_namespace_of(name) {
        Some(ns) => if (cat.index_in)(ns, simple) {
            Ok((simple, Some(ns)))
        } else {
            Err(PlanErrorView::IndexNotFound(ns + "."@ + simple))
        },
        None => match (cat.index_schema)(simple) {
            Some(ns) => Ok(
                (
                    simple,
                    if ns != "public"@ {
                        Some(ns)
                    } else {
                        None
                    },
                ),
            ),
            None => Err(PlanErrorView::IndexNotFound(simple)),
        },
    }
}

fn locate_index<C: Catalog>(name: &ObjectName, catalog: &C) -> (made: Result<
    (String, Option<String>),
    PlanError,
>)
    ensures
        (match made {
            Ok((n, ns)) => Ok(
                (
                    n@,
                    match ns {
                        Some(x) => Some(x@),
                        None => None,
                    },
                ),
            ),
            Err(e) => Err(e@),
        }) == located_index(*name, catalog.model()),
{
    let simple = object_name_simple(name);
    match object_name_explicit_namespace(name) {
        Some(ns) => {
            if catalog.lookup_index_in_schema(ns.as_str(), simple.as_str()) {
                return Ok((simple, Some(ns)));
            }
            Err(PlanError::IndexNotFound(cat3(ns.as_str(), ".", simple.as_str())))
        },
        None => match catalog.lookup_index_schema(simple.as_str()) {
            Some(ns) => {
                if text_eq(ns.as_str(), "public") {
                    Ok((simple, None))
                } else {
                    Ok((simple, Some(ns)))
                }
            },
            None => Err(PlanError::IndexNotFound(simple)),
        },
    }
}

/// The existing indexes of the given names from the `i`-th on. A missing one is
/// left out where that is allowed.
pub open spec fn existing_indexes(
    names: Seq<ObjectName>,
    i: int,
    if_exists: bool,
    cat: CatalogView,
    found: Seq<Seq<char>>,
    spaces: Seq<Option<Seq<char>>>,
) -> Result<(Seq<Seq<char>>, Seq<Option<Seq<char>>>), PlanErrorView>
    decreases names.len() - i,
{
    if i < 0 || i >= names.len() {
        Ok((found, spaces))
    } else {
        match located_index(names[i], cat) {
            Ok((n, ns)) => existing_indexes(
                names,
                i + 1,
                if_exists,
                cat,
                found.push(n),
                spaces.push(ns),
            ),
            Err(e) => if if_exists {
                existing_indexes(names, i + 1, if_exists, cat, found, spaces)
            } else {
                Err(e)
            },
        }
    }
}

fn find_existing_indexes<C: Catalog>(
    names: &Vec<ObjectName>,
    if_exists: bool,
    catalog: &C,
) -> (made:
    Result<(Vec<String>, Vec<Option<String>>), PlanError>)
    ensures
        (match made {
            Ok((x, y)) => Ok((list::strings_view(x@), list::optional_strings_view(y@))),
            Err(e) => Err(e@),
        }) == existing_indexes(
            names@,
            0,
            if_exists,
            catalog.model(),
            Seq::empty(),
            Seq::empty(),
        ),
{
    let ghost cat = catalog.model();
    let mut found: Vec<String> = Vec::new();
    let mut spaces: Vec<Option<String>> = Vec::new();
    assert(list::strings_view(found@) =~= Seq::empty());
    assert(list::optional_strings_view(spaces@) =~= Seq::empty());
    let mut i: usize = 0;
    while i < names.len()
        invariant
            i <= names.len(),
            cat == catalog.model(),
            existing_indexes(
                names@,
                i as int,
                if_exists,
                cat,
                list::strings_view(found@),
                list::optional_strings_view(spaces@),
            ) == existing_indexes(names@, 0, if_exists, cat, Seq::empty(), Seq::empty()),
        decreases names.len() - i,
    {
        match locate_index(&names[i], catalog) {
            Ok((n, ns)) => {
                proof {
                    list::lemma_strings_push(found@, n);
                    list::lemma_optional_strings_push(spaces@, ns);
                }
                found.push(n);
                spaces.push(ns);
            },
            Err(e) => {
                if !if_exists {
                    return Err(e);
                }
            },
        }
        i = i + 1;
    }
    Ok((found, spaces))
}

/// What a `DROP INDEX` is bound to.
pub open spec fn bound_drop_index(s: DropIndexStmt, cat: CatalogView) -> Result<
    LogicalPlanView,
    PlanErrorView,
> {
    match existing_indexes(s.names@, 0, s.if_exists, cat, Seq::empty(), Seq::empty()) {
        Err(e) => Err(e),
        Ok((indexes, index_namespaces)) => Ok(
            LogicalPlanView::DropIndex {
                indexes,
                index_namespaces,
                if_exists: s.if_exists,
                cascade: s.cascade,
                schema: schema::empty_schema(),
            },
        ),
    }
}

/// Binds a `DROP INDEX` statement.
pub fn bind_drop_index<C: Catalog>(s: &DropIndexStmt, catalog: &C) -> (made: Result<
    LogicalPlan,
    PlanError,
>)
    ensures
        error::plan_outcome(made) == bound_drop_index(*s, catalog.model()),
{
    let (indexes, index_namespaces) = find_existing_indexes(&s.names, s.if_exists, catalog)?;
    Ok(
        LogicalPlan::DropIndex {
            indexes,
            index_namespaces,
            if_exists: s.if_exists,
            cascade: s.cascade,
            schema: Schema::empty(),
        },
    )
}

} // verus!

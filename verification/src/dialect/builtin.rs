//! Builtin functions: which there are, what they accept and what they answer.
use crate::ast::ObjectName;
use crate::binder::typing::comparable;
use crate::binder::{names, typing};
use crate::datatype::{DataType, DataTypeView};
use crate::dialect::coerce::coerce_literal_to_type;
use crate::dialect::reading::{Readings, ReadingsView};
use crate::dialect::typename::{dims_compatible, vector_dims};
use crate::dialect::{coerce, typename};
use crate::error::{PlanError, PlanErrorView};
use crate::query::{ScalarExpr, ScalarExprView};
use crate::text::{cat2, cat3, cat5, eq_fold, owned, show_usize, text_eq, to_lower};
use crate::value::{Value, ValueView};
use crate::{datatype, debug, error, query, text};
use vstd::prelude::*;

verus! {

/// The builtin functions that answer with 64-bit integers.
pub open spec fn integer_builtin(n: Seq<char>) -> bool {
    ||| n == "extract"@
    ||| n == "abs"@
    ||| n == "bit_count"@
    ||| n == "pg_relation_size"@
}

fn is_integer_builtin(n: &str) -> (yes: bool)
    ensures
        yes == integer_builtin(n@),
{
    text_eq(n, "extract") || text_eq(n, "abs") || text_eq(n, "bit_count")
    || text_eq(n, "pg_relation_size")
}

/// The builtin functions that answer with dates.
pub open spec fn date_builtin(n: Seq<char>) -> bool {
    ||| n == "current_date"@
    ||| n == "make_date"@
}

fn is_date_builtin(n: &str) -> (yes: bool)
    ensures
        yes == date_builtin(n@),
{
    text_eq(n, "current_date") || text_eq(n, "make_date")
}

/// The builtin functions that answer with points in time.
pub open spec fn moment_builtin(n: Seq<char>) -> bool {
    ||| n == "now"@
    ||| n == "current_timestamp"@
    ||| n == "date_trunc"@
    ||| n == "to_timestamp"@
    ||| n == "date_bin"@
}

fn is_moment_builtin(n: &str) -> (yes: bool)
    ensures
        yes == moment_builtin(n@),
{
    text_eq(n, "now") || text_eq(n, "current_timestamp") || text_eq(n, "date_trunc")
    || text_eq(n, "to_timestamp") || text_eq(n, "date_bin")
}

/// The builtin functions that answer with floating-point numbers.
pub open spec fn float_builtin(n: Seq<char>) -> bool {
    ||| n == "ceil"@
    ||| n == "floor"@
    ||| n == "round"@
    ||| n == "trunc"@
    ||| n == "mod"@
    ||| n == "power"@
    ||| n == "sqrt"@
    ||| n == "exp"@
    ||| n == "ln"@
    ||| n == "log"@
    ||| n == "random"@
    ||| n == "sin"@
    ||| n == "cos"@
    ||| n == "tan"@
    ||| n == "asin"@
    ||| n == "acos"@
    ||| n == "atan"@
    ||| n == "pi"@
    ||| n == "ts_rank"@
    ||| n == "ts_rank_cd"@
    ||| n == "l2_distance"@
    ||| n == "cosine_distance"@
    ||| n == "inner_product"@
    ||| n == "dot_product"@
    ||| n == "l1_distance"@
    ||| n == "hybrid_search"@
    ||| n == "vector_norm"@
    ||| n == "l2_norm"@
}

fn is_float_builtin(n: &str) -> (yes: bool)
    ensures
        yes == float_builtin(n@),
{
    text_eq(n, "ceil") || text_eq(n, "floor") || text_eq(n, "round") || text_eq(n, "trunc")
    || text_eq(n, "mod") || text_eq(n, "power") || text_eq(n, "sqrt") || text_eq(n, "exp")
    || text_eq(n, "ln") || text_eq(n, "log") || text_eq(n, "random") || text_eq(n, "sin")
    || text_eq(n, "cos") || text_eq(n, "tan") || text_eq(n, "asin") || text_eq(n, "acos")
    || text_eq(n, "atan") || text_eq(n, "pi") || text_eq(n, "ts_rank")
    || text_eq(n, "ts_rank_cd") || text_eq(n, "l2_distance") || text_eq(n, "cosine_distance")
    || text_eq(n, "inner_product") || text_eq(n, "dot_product") || text_eq(n, "l1_distance")
    || text_eq(n, "hybrid_search") || text_eq(n, "vector_norm") || text_eq(n, "l2_norm")
}

/// The builtin functions that answer with 32-bit integers.
pub open spec fn small_integer_builtin(n: Seq<char>) -> bool {
    ||| n == "length"@
    ||| n == "position"@
    ||| n == "bit_length"@
    ||| n == "octet_length"@
    ||| n == "get_bit"@
    ||| n == "numnode"@
    ||| n == "family"@
    ||| n == "masklen"@
    ||| n == "array_length"@
    ||| n == "array_ndims"@
    ||| n == "array_lower"@
    ||| n == "array_upper"@
    ||| n == "cardinality"@
    ||| n == "array_position"@
    ||| n == "vector_dims"@
}

fn is_small_integer_builtin(n: &str) -> (yes: bool)
    ensures
        yes == small_integer_builtin(n@),
{
    text_eq(n, "length") || text_eq(n, "position") || text_eq(n, "bit_length")
    || text_eq(n, "octet_length") || text_eq(n, "get_bit") || text_eq(n, "numnode")
    || text_eq(n, "family") || text_eq(n, "masklen") || text_eq(n, "array_length")
    || text_eq(n, "array_ndims") || text_eq(n, "array_lower") || text_eq(n, "array_upper")
    || text_eq(n, "cardinality") || text_eq(n, "array_position") || text_eq(n, "vector_dims")
}

/// The builtin functions that answer with texts.
pub open spec fn string_builtin(n: Seq<char>) -> bool {
    ||| n == "lower"@
    ||| n == "upper"@
    ||| n == "trim"@
    ||| n == "lpad"@
    ||| n == "rpad"@
    ||| n == "left"@
    ||| n == "right"@
    ||| n == "substr"@
    ||| n == "substring"@
    ||| n == "replace"@
    ||| n == "split_part"@
    ||| n == "concat"@
    ||| n == "concat_ws"@
    ||| n == "repeat"@
    ||| n == "reverse"@
    ||| n == "md5"@
    ||| n == "sha256"@
    ||| n == "quote_ident"@
    ||| n == "quote_literal"@
    ||| n == "format"@
    ||| n == "regexp_replace"@
    ||| n == "ts_headline"@
    ||| n == "querytree"@
    ||| n == "xmlserialize"@
    ||| n == "host"@
    ||| n == "pg_get_userbyid"@
    ||| n == "array_dims"@
    ||| n == "array_to_string"@
}

fn is_string_builtin(n: &str) -> (yes: bool)
    ensures
        yes == string_builtin(n@),
{
    text_eq(n, "lower") || text_eq(n, "upper") || text_eq(n, "trim") || text_eq(n, "lpad")
    || text_eq(n, "rpad") || text_eq(n, "left") || text_eq(n, "right") || text_eq(n, "substr")
    || text_eq(n, "substring") || text_eq(n, "replace") || text_eq(n, "split_part")
    || text_eq(n, "concat") || text_eq(n, "concat_ws") || text_eq(n, "repeat")
    || text_eq(n, "reverse") || text_eq(n, "md5") || text_eq(n, "sha256")
    || text_eq(n, "quote_ident") || text_eq(n, "quote_literal") || text_eq(n, "format")
    || text_eq(n, "regexp_replace") || text_eq(n, "ts_headline") || text_eq(n, "querytree")
    || text_eq(n, "xmlserialize") || text_eq(n, "host") || text_eq(n, "pg_get_userbyid")
    || text_eq(n, "array_dims") || text_eq(n, "array_to_string")
}

/// The builtin functions that answer with texts about the session and the catalog.
pub open spec fn catalog_string_builtin(n: Seq<char>) -> bool {
    ||| n == "version"@
    ||| n == "current_catalog"@
    ||| n == "current_database"@
    ||| n == "current_schema"@
    ||| n == "current_user"@
    ||| n == "session_user"@
    ||| n == "pg_typeof"@
    ||| n == "pg_size_pretty"@
    ||| n == "set_config"@
    ||| n == "format_type"@
    ||| n == "pg_get_expr"@
    ||| n == "pg_get_indexdef"@
    ||| n == "pg_get_constraintdef"@
    ||| n == "pg_get_statisticsobjdef_columns"@
    ||| n == "pg_get_function_result"@
    ||| n == "pg_get_function_arguments"@
    ||| n == "pg_encoding_to_char"@
    ||| n == "obj_description"@
    ||| n == "shobj_description"@
    ||| n == "col_description"@
    ||| n == "pg_get_serial_sequence"@
}

fn is_catalog_string_builtin(n: &str) -> (yes: bool)
    ensures
        yes == catalog_string_builtin(n@),
{
    text_eq(n, "version") || text_eq(n, "current_catalog") || text_eq(n, "current_database")
    || text_eq(n, "current_schema") || text_eq(n, "current_user") || text_eq(n, "session_user")
    || text_eq(n, "pg_typeof") || text_eq(n, "pg_size_pretty") || text_eq(n, "set_config")
    || text_eq(n, "format_type") || text_eq(n, "pg_get_expr") || text_eq(n, "pg_get_indexdef")
    || text_eq(n, "pg_get_constraintdef") || text_eq(n, "pg_get_statisticsobjdef_columns")
    || text_eq(n, "pg_get_function_result") || text_eq(n, "pg_get_function_arguments")
    || text_eq(n, "pg_encoding_to_char") || text_eq(n, "obj_description")
    || text_eq(n, "shobj_description") || text_eq(n, "col_description")
    || text_eq(n, "pg_get_serial_sequence")
}

/// The builtin functions that answer with text-search queries.
pub open spec fn search_query_builtin(n: Seq<char>) -> bool {
    ||| n == "to_tsquery"@
    ||| n == "plainto_tsquery"@
    ||| n == "websearch_to_tsquery"@
    ||| n == "phraseto_tsquery"@
}

fn is_search_query_builtin(n: &str) -> (yes: bool)
    ensures
        yes == search_query_builtin(n@),
{
    text_eq(n, "to_tsquery") || text_eq(n, "plainto_tsquery")
    || text_eq(n, "websearch_to_tsquery") || text_eq(n, "phraseto_tsquery")
}

/// The builtin functions that answer with JSON documents.
pub open spec fn json_builtin(n: Seq<char>) -> bool {
    ||| n == "row_to_json"@
    ||| n == "json_build_object"@
    ||| n == "jsonb_set"@
}

fn is_json_builtin(n: &str) -> (yes: bool)
    ensures
        yes == json_builtin(n@),
{
    text_eq(n, "row_to_json") || text_eq(n, "json_build_object") || text_eq(n, "jsonb_set")
}

/// The builtin functions that answer with truth values.
pub open spec fn boolean_builtin(n: Seq<char>) -> bool {
    ||| n == "jsonb_path_exists"@
    ||| n == "xml_is_well_formed"@
    ||| n == "xml_is_well_formed_content"@
    ||| n == "xml_is_well_formed_document"@
    ||| n == "xpath_exists"@
    ||| n == "pg_try_advisory_lock"@
    ||| n == "pg_try_advisory_xact_lock"@
    ||| n == "pg_advisory_unlock"@
    ||| n == "has_table_privilege"@
    ||| n == "has_schema_privilege"@
    ||| n == "has_database_privilege"@
    ||| n == "has_sequence_privilege"@
    ||| n == "has_function_privilege"@
    ||| n == "has_column_privilege"@
    ||| n == "pg_table_is_visible"@
    ||| n == "pg_is_other_temp_schema"@
    ||| n == "pg_function_is_visible"@
    ||| n == "pg_relation_is_publishable"@
}

fn is_boolean_builtin(n: &str) -> (yes: bool)
    ensures
        yes == boolean_builtin(n@),
{
    text_eq(n, "jsonb_path_exists") || text_eq(n, "xml_is_well_formed")
    || text_eq(n, "xml_is_well_formed_content") || text_eq(n, "xml_is_well_formed_document")
    || text_eq(n, "xpath_exists") || text_eq(n, "pg_try_advisory_lock")
    || text_eq(n, "pg_try_advisory_xact_lock") || text_eq(n, "pg_advisory_unlock")
    || text_eq(n, "has_table_privilege") || text_eq(n, "has_schema_privilege")
    || text_eq(n, "has_database_privilege") || text_eq(n, "has_sequence_privilege")
    || text_eq(n, "has_function_privilege") || text_eq(n, "has_column_privilege")
    || text_eq(n, "pg_table_is_visible") || text_eq(n, "pg_is_other_temp_schema")
    || text_eq(n, "pg_function_is_visible") || text_eq(n, "pg_relation_is_publishable")
}

/// The builtin functions that answer with arrays of texts.
pub open spec fn string_array_builtin(n: Seq<char>) -> bool {
    ||| n == "current_schemas"@
    ||| n == "string_to_array"@
    ||| n == "array_cat"@
}

fn is_string_array_builtin(n: &str) -> (yes: bool)
    ensures
        yes == string_array_builtin(n@),
{
    text_eq(n, "current_schemas") || text_eq(n, "string_to_array") || text_eq(n, "array_cat")
}

/// The type that a builtin function answers whatever its arguments are.
pub open spec fn fixed_type(n: Seq<char>) -> Option<DataTypeView> {
    if integer_builtin(n) {
        Some(DataTypeView::Int64)
    } else if date_builtin(n) {
        Some(DataTypeView::Date)
    } else if moment_builtin(n) {
        Some(DataTypeView::TimestampTz)
    } else if float_builtin(n) {
        Some(DataTypeView::Float64)
    } else if small_integer_builtin(n) {
        Some(DataTypeView::Int32)
    } else if string_builtin(n) {
        Some(DataTypeView::Text { max_len: None })
    } else if catalog_string_builtin(n) {
        Some(DataTypeView::Text { max_len: None })
    } else if search_query_builtin(n) {
        Some(DataTypeView::TsQuery)
    } else if json_builtin(n) {
        Some(DataTypeView::Jsonb)
    } else if boolean_builtin(n) {
        Some(DataTypeView::Bool)
    } else if string_array_builtin(n) {
        Some(DataTypeView::Array(Box::new(DataTypeView::Text { max_len: None })))
    } else if n == "age"@ {
        Some(DataTypeView::Interval)
    } else if n == "set_bit"@ {
        Some(DataTypeView::VarBit { max_len: None })
    } else if n == "to_tsvector"@ {
        Some(DataTypeView::TsVector)
    } else if n == "xmlparse"@ {
        Some(DataTypeView::Xml)
    } else if n == "to_regtype"@ {
        Some(DataTypeView::RegType)
    } else if n == "gen_random_uuid"@ {
        Some(DataTypeView::Uuid)
    } else if n == "xpath"@ {
        Some(DataTypeView::Array(Box::new(DataTypeView::Xml)))
    } else if n == "pg_advisory_lock"@ || n == "pg_advisory_unlock_all"@ {
        Some(DataTypeView::Null)
    } else {
        None
    }
}

fn resolve_fixed_type(n: &str) -> (t: Option<DataType>)
    ensures
        typename::type_view(t) == fixed_type(n@),
{
    proof {
        reveal_with_fuel(DataType::view, 3);
    }
    if is_integer_builtin(n) {
        Some(DataType::Int64)
    } else if is_date_builtin(n) {
        Some(DataType::Date)
    } else if is_moment_builtin(n) {
        Some(DataType::TimestampTz)
    } else if is_float_builtin(n) {
        Some(DataType::Float64)
    } else if is_small_integer_builtin(n) {
        Some(DataType::Int32)
    } else if is_string_builtin(n) {
        Some(DataType::Text { max_len: None })
    } else if is_catalog_string_builtin(n) {
        Some(DataType::Text { max_len: None })
    } else if is_search_query_builtin(n) {
        Some(DataType::TsQuery)
    } else if is_json_builtin(n) {
        Some(DataType::Jsonb)
    } else if is_boolean_builtin(n) {
        Some(DataType::Bool)
    } else if is_string_array_builtin(n) {
        Some(DataType::Array(Box::new(DataType::Text { max_len: None })))
    } else if text_eq(n, "age") {
        Some(DataType::Interval)
    } else if text_eq(n, "set_bit") {
        Some(DataType::VarBit { max_len: None })
    } else if text_eq(n, "to_tsvector") {
        Some(DataType::TsVector)
    } else if text_eq(n, "xmlparse") {
        Some(DataType::Xml)
    } else if text_eq(n, "to_regtype") {
        Some(DataType::RegType)
    } else if text_eq(n, "gen_random_uuid") {
        Some(DataType::Uuid)
    } else if text_eq(n, "xpath") {
        Some(DataType::Array(Box::new(DataType::Xml)))
    } else if text_eq(n, "pg_advisory_lock") || text_eq(n, "pg_advisory_unlock_all") {
        Some(DataType::Null)
    } else {
        None
    }
}

/// The builtin functions whose answer depends on their arguments' types.
pub open spec fn ruled_builtin(n: Seq<char>) -> bool {
    ||| n == "ifnull"@
    ||| n == "nvl"@
    ||| n == "nullif"@
    ||| n == "least"@
    ||| n == "greatest"@
    ||| n == "min"@
    ||| n == "max"@
    ||| n == "array_append"@
    ||| n == "array_remove"@
    ||| n == "array_prepend"@
    ||| n == "array_replace"@
    ||| n == "trim_array"@
    ||| n == "array_positions"@
}

fn is_ruled_builtin(n: &str) -> (yes: bool)
    ensures
        yes == ruled_builtin(n@),
{
    text_eq(n, "ifnull") || text_eq(n, "nvl") || text_eq(n, "nullif") || text_eq(n, "least")
        || text_eq(n, "greatest") || text_eq(n, "min") || text_eq(n, "max") || text_eq(
        n,
        "array_append",
    ) || text_eq(n, "array_remove") || text_eq(n, "array_prepend") || text_eq(n, "array_replace")
        || text_eq(n, "trim_array") || text_eq(n, "array_positions")
}

/// Whether a call can name a function. Names are in lower case.
pub open spec fn supported_builtin(n: Seq<char>) -> bool {
    fixed_type(n) is Some || ruled_builtin(n)
}

/// Tells whether a call can name a function.
pub fn is_supported_builtin(func_name: &str) -> (yes: bool)
    ensures
        yes == supported_builtin(func_name@),
{
    resolve_fixed_type(func_name).is_some() || is_ruled_builtin(func_name)
}

/// The types of the arguments.
pub open spec fn types_of(args: Seq<ScalarExprView>) -> Seq<DataTypeView> {
    Seq::new(args.len(), |i: int| query::scalar_type(args[i]))
}

fn type_at(args: &Vec<ScalarExpr>, i: usize) -> (t: DataType)
    requires
        i < args.len(),
    ensures
        t@ == types_of(query::scalars_view(args@))[i as int],
{
    args[i].data_type()
}

/// The complaint about a number of arguments.
pub open spec fn count_mismatch(f: Seq<char>, expected: Seq<char>, n: nat) -> PlanErrorView {
    PlanErrorView::TypeMismatch(f + ": expected "@ + expected + ", got "@ + text::decimal(n))
}

fn count_error(f: &str, expected: &str, n: usize) -> (e: PlanError)
    ensures
        e@ == count_mismatch(f@, expected@, n as nat),
{
    PlanError::TypeMismatch(cat5(f, ": expected ", expected, ", got ", show_usize(n).as_str()))
}

/// The complaint about the type of an argument.
pub open spec fn arg_mismatch(f: Seq<char>, what: Seq<char>, t: DataTypeView) -> PlanErrorView {
    PlanErrorView::TypeMismatch(f + ": "@ + what + ", got "@ + datatype::type_text(t))
}

fn arg_error(f: &str, what: &str, t: &DataType) -> (e: PlanError)
    ensures
        e@ == arg_mismatch(f@, what@, t@),
{
    PlanError::TypeMismatch(cat5(f, ": ", what, ", got ", t.sql_name().as_str()))
}

/// The complaint about two types that do not go together.
pub open spec fn args_mismatch(
    f: Seq<char>,
    what: Seq<char>,
    a: DataTypeView,
    b: DataTypeView,
) -> PlanErrorView {
    PlanErrorView::TypeMismatch(
        f + ": "@ + what + ", got "@ + datatype::type_text(a) + " and "@ + datatype::type_text(b),
    )
}

fn args_error(f: &str, what: &str, a: &DataType, b: &DataType) -> (e: PlanError)
    ensures
        e@ == args_mismatch(f@, what@, a@, b@),
{
    PlanError::TypeMismatch(
        text::cat7(
            f,
            ": ",
            what,
            ", got ",
            a.sql_name().as_str(),
            " and ",
            b.sql_name().as_str(),
        ),
    )
}

/// The type that values of both types have in common.
pub open spec fn pair_type(f: Seq<char>, left: DataTypeView, right: DataTypeView) -> Result<
    DataTypeView,
    PlanErrorView,
> {
    if left == right || right is Null {
        Ok(left)
    } else if left is Null {
        Ok(right)
    } else if datatype::numeric(left) && datatype::numeric(right) {
        match datatype::join_numeric(left, right) {
            Some(t) => Ok(t),
            None => Err(args_mismatch(f, "arguments must share a numeric type"@, left, right)),
        }
    } else if datatype::textlike(left) && datatype::textlike(right) {
        Ok(DataTypeView::Text { max_len: None })
    } else if left is Json && right is Jsonb || left is Jsonb && right is Json {
        Ok(DataTypeView::Jsonb)
    } else if typing::comparable_types(left, right) {
        Ok(left)
    } else {
        Err(args_mismatch(f, "arguments must share a comparable type"@, left, right))
    }
}

fn common_scalar_pair_type(func_name: &str, left: &DataType, right: &DataType) -> (made: Result<
    DataType,
    PlanError,
>)
    ensures
        error::type_outcome(made) == pair_type(func_name@, left@, right@),
{
    if left.same(right) || right.is_null() {
        return Ok(left.duplicate());
    }
    if left.is_null() {
        return Ok(right.duplicate());
    }
    if left.is_numeric() && right.is_numeric() {
        return match left.numeric_join(right) {
            Some(t) => Ok(t),
            None => Err(args_error(func_name, "arguments must share a numeric type", left, right)),
        };
    }
    if left.is_textlike() && right.is_textlike() {
        return Ok(DataType::Text { max_len: None });
    }
    match (left, right) {
        (DataType::Json, DataType::Jsonb) => return Ok(DataType::Jsonb),
        (DataType::Jsonb, DataType::Json) => return Ok(DataType::Jsonb),
        _ => {},
    }
    if comparable(left, right) {
        return Ok(left.duplicate());
    }
    Err(args_error(func_name, "arguments must share a comparable type", left, right))
}

/// The type that values of a type and of the types from the `i`-th on have in
/// common.
pub open spec fn common_from(
    f: Seq<char>,
    types: Seq<DataTypeView>,
    i: int,
    acc: DataTypeView,
) -> Result<
    DataTypeView,
    PlanErrorView,
>
    decreases types.len() - i,
{
    if i < 0 || i >= types.len() {
        Ok(acc)
    } else {
        match pair_type(f, acc, types[i]) {
            Err(e) => Err(e),
            Ok(t) => common_from(f, types, i + 1, t),
        }
    }
}

/// The type that all arguments have in common.
pub open spec fn common_type(f: Seq<char>, types: Seq<DataTypeView>) -> Result<
    DataTypeView,
    PlanErrorView,
> {
    if types.len() == 0 {
        Err(PlanErrorView::TypeMismatch(f + ": expected at least 1 argument, got 0"@))
    } else {
        common_from(f, types, 0, DataTypeView::Null)
    }
}

/// Finds the type that all arguments have in common.
pub fn common_scalar_return_type(func_name: &str, args: &Vec<ScalarExpr>) -> (made: Result<
    DataType,
    PlanError,
>)
    ensures
        error::type_outcome(made) == common_type(
            func_name@,
            types_of(query::scalars_view(args@)),
        ),
{
    if args.len() == 0 {
        return Err(
            PlanError::TypeMismatch(cat2(func_name, ": expected at least 1 argument, got 0")),
        );
    }
    let ghost types = types_of(query::scalars_view(args@));
    let mut acc = DataType::Null;
    let mut i: usize = 0;
    while i < args.len()
        invariant
            i <= args.len(),
            types == types_of(query::scalars_view(args@)),
            common_from(func_name@, types, i as int, acc@) == common_from(
                func_name@,
                types,
                0,
                DataTypeView::Null,
            ),
            types.len() > 0,
        decreases args.len() - i,
    {
        acc = common_scalar_pair_type(func_name, &acc, &type_at(args, i))?;
        i = i + 1;
    }
    Ok(acc)
}

/// The arguments, each coerced to the given type.
pub open spec fn all_coerced(
    args: Seq<ScalarExprView>,
    target: DataTypeView,
    r: ReadingsView,
) -> Seq<
    ScalarExprView,
> {
    Seq::new(args.len(), |i: int| coerce::coerced(args[i], target, r))
}

fn coerce_at(args: &mut Vec<ScalarExpr>, i: usize, target: &DataType, readings: &Readings)
    requires
        i < old(args).len(),
    ensures
        final(args)@.len() == old(args)@.len(),
        query::scalars_view(final(args)@) == query::scalars_view(old(args)@).update(
            i as int,
            coerce::coerced(query::scalars_view(old(args)@)[i as int], target@, readings@),
        ),
{
    let mut e = args[i].duplicate();
    coerce_literal_to_type(&mut e, target, readings);
    args.set(i, e);
    assert(query::scalars_view(args@) =~= query::scalars_view(old(args)@).update(
        i as int,
        coerce::coerced(query::scalars_view(old(args)@)[i as int], target@, readings@),
    ));
}

/// Coerces every argument to the given type.
pub fn coerce_args_to_common_type(
    args: &mut Vec<ScalarExpr>,
    target: &DataType,
    readings: &Readings,
)
    ensures
        query::scalars_view(final(args)@) == all_coerced(
            query::scalars_view(old(args)@),
            target@,
            readings@,
        ),
{
    let ghost start = query::scalars_view(args@);
    let mut i: usize = 0;
    while i < args.len()
        invariant
            i <= args.len(),
            args.len() == start.len(),
            forall|j: int|
                0 <= j < i ==> (#[trigger] query::scalars_view(args@)[j]) == coerce::coerced(
                    start[j],
                    target@,
                    readings@,
                ),
            forall|j: int|
                i <= j < args.len() ==> (#[trigger] query::scalars_view(args@)[j]) == start[j],
        decreases args.len() - i,
    {
        coerce_at(args, i, target, readings);
        i = i + 1;
    }
    assert(query::scalars_view(args@) =~= all_coerced(start, target@, readings@));
}

/// Whether the arguments of a function are coerced to its type.
pub open spec fn coerces_args(n: Seq<char>) -> bool {
    n == "ifnull"@ || n == "nvl"@ || n == "least"@ || n == "greatest"@ || n == "min"@ || n == "max"@
}

/// Coerces the arguments of those functions that compare or choose among them.
pub fn coerce_common_builtin_args(
    func_name: &str,
    args: &mut Vec<ScalarExpr>,
    target: &DataType,
    readings: &Readings,
)
    ensures
        query::scalars_view(final(args)@) == if coerces_args(func_name@) {
            all_coerced(query::scalars_view(old(args)@), target@, readings@)
        } else {
            query::scalars_view(old(args)@)
        },
{
    if text_eq(func_name, "ifnull") || text_eq(func_name, "nvl") || text_eq(func_name, "least")
        || text_eq(func_name, "greatest") || text_eq(func_name, "min") || text_eq(
        func_name,
        "max",
    ) {
        coerce_args_to_common_type(args, target, readings);
    }
}

/// The type of a point in time seen from a zone.
pub open spec fn zone_type(types: Seq<DataTypeView>) -> Result<DataTypeView, PlanErrorView> {
    if types.len() != 2 {
        Err(count_mismatch("timezone"@, "2 arguments"@, types.len()))
    } else if !datatype::textlike(types[0]) && !(types[0] is Null) {
        Err(arg_mismatch("timezone"@, "zone must be text"@, types[0]))
    } else {
        match types[1] {
            DataTypeView::Timestamp => Ok(DataTypeView::TimestampTz),
            DataTypeView::TimestampTz => Ok(DataTypeView::Timestamp),
            DataTypeView::TimeTz => Ok(DataTypeView::TimeTz),
            DataTypeView::Null => Ok(DataTypeView::Null),
            other => Err(
                arg_mismatch(
                    "timezone"@,
                    "source must be timestamp, timestamptz, or timetz"@,
                    other,
                ),
            ),
        }
    }
}

/// Finds the type of a point in time seen from a zone.
pub fn timezone_return_type(args: &Vec<ScalarExpr>) -> (made: Result<DataType, PlanError>)
    ensures
        error::type_outcome(made) == zone_type(types_of(query::scalars_view(args@))),
{
    if args.len() != 2 {
        return Err(count_error("timezone", "2 arguments", args.len()));
    }
    let zone = type_at(args, 0);
    if !zone.is_textlike() && !zone.is_null() {
        return Err(arg_error("timezone", "zone must be text", &zone));
    }
    let source = type_at(args, 1);
    match &source {
        DataType::Timestamp => Ok(DataType::TimestampTz),
        DataType::TimestampTz => Ok(DataType::Timestamp),
        DataType::TimeTz => Ok(DataType::TimeTz),
        DataType::Null => Ok(DataType::Null),
        _ => Err(
            arg_error("timezone", "source must be timestamp, timestamptz, or timetz", &source),
        ),
    }
}

/// The array type of an argument, where the number of arguments is right.
pub open spec fn array_arg_type(
    f: Seq<char>,
    types: Seq<DataTypeView>,
    at: int,
    expected: nat,
) -> Result<
    DataTypeView,
    PlanErrorView,
> {
    if types.len() != expected {
        Err(count_mismatch(f, text::decimal(expected) + " arguments"@, types.len()))
    } else if types[at] is Array {
        Ok(types[at])
    } else {
        Err(
            PlanErrorView::TypeMismatch(
                f + ": array argument required, got "@ + debug::variant_text(types[at]),
            ),
        )
    }
}

/// Finds the array type of an argument.
pub fn array_argument_return_type(
    func_name: &str,
    args: &Vec<ScalarExpr>,
    array_arg_idx: usize,
    expected_args: usize,
) -> (made: Result<DataType, PlanError>)
    requires
        array_arg_idx < expected_args,
    ensures
        error::type_outcome(made) == array_arg_type(
            func_name@,
            types_of(query::scalars_view(args@)),
            array_arg_idx as int,
            expected_args as nat,
        ),
{
    if args.len() != expected_args {
        let expected = cat2(show_usize(expected_args).as_str(), " arguments");
        return Err(count_error(func_name, expected.as_str(), args.len()));
    }
    let t = type_at(args, array_arg_idx);
    if matches!(t, DataType::Array(_)) {
        Ok(t)
    } else {
        Err(
            PlanError::TypeMismatch(
                cat3(func_name, ": array argument required, got ", t.debug_text().as_str()),
            ),
        )
    }
}

/// The complaint about a value that is not of an array's element type.
pub open spec fn element_mismatch(
    f: Seq<char>,
    what: Seq<char>,
    expected: DataTypeView,
    t: DataTypeView,
) -> PlanErrorView {
    PlanErrorView::TypeMismatch(
        f + what + debug::variant_text(expected) + ", got "@ + debug::variant_text(t),
    )
}

fn element_error(f: &str, what: &str, expected: &DataType, t: &DataType) -> (e: PlanError)
    ensures
        e@ == element_mismatch(f@, what@, expected@, t@),
{
    PlanError::TypeMismatch(
        cat5(f, what, expected.debug_text().as_str(), ", got ", t.debug_text().as_str()),
    )
}

/// The array type of an argument, where another argument can be an element of
/// it.
pub open spec fn array_and_element(
    f: Seq<char>,
    types: Seq<DataTypeView>,
    at: int,
    value_at: int,
    expected: nat,
) -> Result<DataTypeView, PlanErrorView> {
    match array_arg_type(f, types, at, expected) {
        Err(e) => Err(e),
        Ok(t) => match t {
            DataTypeView::Array(element) => if types[value_at] is Null || types[value_at]
                == *element {
                Ok(t)
            } else {
                Err(
                    element_mismatch(
                        f,
                        ": element type mismatch, expected "@,
                        *element,
                        types[value_at],
                    ),
                )
            },
            _ => Ok(t),
        },
    }
}

/// Checks that an argument can be an element of another.
pub fn validate_array_element_argument(
    func_name: &str,
    args: &Vec<ScalarExpr>,
    array_arg_idx: usize,
    value_arg_idx: usize,
    expected_args: usize,
) -> (made: Result<DataType, PlanError>)
    requires
        array_arg_idx < expected_args,
        value_arg_idx < expected_args,
    ensures
        error::type_outcome(made) == array_and_element(
            func_name@,
            types_of(query::scalars_view(args@)),
            array_arg_idx as int,
            value_arg_idx as int,
            expected_args as nat,
        ),
{
    let array_type = array_argument_return_type(func_name, args, array_arg_idx, expected_args)?;
    let t = type_at(args, value_arg_idx);
    match &array_type {
        DataType::Array(element) => if !t.is_null() && !t.same(element) {
            return Err(
                element_error(func_name, ": element type mismatch, expected ", element, &t),
            );
        },
        _ => {},
    }
    Ok(array_type)
}

/// The type that `array_replace` answers.
pub open spec fn replaced_array_type(f: Seq<char>, types: Seq<DataTypeView>) -> Result<
    DataTypeView,
    PlanErrorView,
> {
    match array_and_element(f, types, 0, 1, 3) {
        Err(e) => Err(e),
        Ok(t) => match t {
            DataTypeView::Array(element) => if types[2] is Null || types[2] == *element {
                Ok(t)
            } else {
                Err(
                    element_mismatch(
                        f,
                        ": replacement type mismatch, expected "@,
                        *element,
                        types[2],
                    ),
                )
            },
            _ => Ok(t),
        },
    }
}

/// Finds the type that `array_replace` answers.
pub fn array_replace_return_type(func_name: &str, args: &Vec<ScalarExpr>) -> (made: Result<
    DataType,
    PlanError,
>)
    ensures
        error::type_outcome(made) == replaced_array_type(
            func_name@,
            types_of(query::scalars_view(args@)),
        ),
{
    let array_type = validate_array_element_argument(func_name, args, 0, 1, 3)?;
    let t = type_at(args, 2);
    match &array_type {
        DataType::Array(element) => if !t.is_null() && !t.same(element) {
            return Err(
                element_error(func_name, ": replacement type mismatch, expected ", element, &t),
            );
        },
        _ => {},
    }
    Ok(array_type)
}

/// The type that a function with a rule of its own answers.
pub open spec fn ruled_type(f: Seq<char>, types: Seq<DataTypeView>) -> Result<
    DataTypeView,
    PlanErrorView,
> {
    if f == "nullif"@ {
        if types.len() != 2 {
            Err(count_mismatch(f, "2 arguments"@, types.len()))
        } else {
            Ok(types[0])
        }
    } else if f == "array_append"@ || f == "array_remove"@ {
        array_and_element(f, types, 0, 1, 2)
    } else if f == "array_prepend"@ {
        array_and_element(f, types, 1, 0, 2)
    } else if f == "array_replace"@ {
        replaced_array_type(f, types)
    } else if f == "trim_array"@ {
        array_arg_type(f, types, 0, 2)
    } else if f == "array_positions"@ {
        match array_and_element(f, types, 0, 1, 2) {
            Err(e) => Err(e),
            Ok(_) => Ok(DataTypeView::Array(Box::new(DataTypeView::Int32))),
        }
    } else {
        common_type(f, types)
    }
}

fn ruled_return_type(f: &str, args: &Vec<ScalarExpr>) -> (made: Result<DataType, PlanError>)
    ensures
        error::type_outcome(made) == ruled_type(f@, types_of(query::scalars_view(args@))),
{
    if text_eq(f, "nullif") {
        if args.len() != 2 {
            Err(count_error(f, "2 arguments", args.len()))
        } else {
            Ok(type_at(args, 0))
        }
    } else if text_eq(f, "array_append") || text_eq(f, "array_remove") {
        validate_array_element_argument(f, args, 0, 1, 2)
    } else if text_eq(f, "array_prepend") {
        validate_array_element_argument(f, args, 1, 0, 2)
    } else if text_eq(f, "array_replace") {
        array_replace_return_type(f, args)
    } else if text_eq(f, "trim_array") {
        array_argument_return_type(f, args, 0, 2)
    } else if text_eq(f, "array_positions") {
        proof {
            reveal_with_fuel(DataType::view, 2);
        }
        match validate_array_element_argument(f, args, 0, 1, 2) {
            Err(e) => Err(e),
            Ok(_) => Ok(DataType::Array(Box::new(DataType::Int32))),
        }
    } else {
        common_scalar_return_type(f, args)
    }
}

/// The type that a builtin function answers.
pub open spec fn answer_type(f: Seq<char>, types: Seq<DataTypeView>) -> Result<
    DataTypeView,
    PlanErrorView,
> {
    match fixed_type(f) {
        Some(t) => Ok(t),
        None => if ruled_builtin(f) {
            ruled_type(f, types)
        } else if f == "timezone"@ {
            zone_type(types)
        } else {
            Err(PlanErrorView::NotSupported("non-aggregate function calls"@))
        },
    }
}

/// Finds the type that a builtin function answers.
pub fn builtin_return_type(func_name: &str, args: &Vec<ScalarExpr>) -> (made: Result<
    DataType,
    PlanError,
>)
    ensures
        error::type_outcome(made) == answer_type(
            func_name@,
            types_of(query::scalars_view(args@)),
        ),
{
    if let Some(t) = resolve_fixed_type(func_name) {
        return Ok(t);
    }
    if is_ruled_builtin(func_name) {
        return ruled_return_type(func_name, args);
    }
    if text_eq(func_name, "timezone") {
        return timezone_return_type(args);
    }
    Err(PlanError::NotSupported("non-aggregate function calls"))
}

/// A function that a call can name always has an answer type, or a complaint
/// about its arguments; only other names are not supported.
pub proof fn supported_builtins_have_types(f: Seq<char>, types: Seq<DataTypeView>)
    ensures
        supported_builtin(f) ==> !(answer_type(f, types) matches Err(
            PlanErrorView::NotSupported(_),
        )),
        answer_type(f, types) is Ok ==> supported_builtin(f) || f == "timezone"@,
{
    if ruled_builtin(f) && fixed_type(f) is None {
        common_types_do_not_refuse(f, types, 0, DataTypeView::Null);
    }
}

proof fn common_types_do_not_refuse(
    f: Seq<char>,
    types: Seq<DataTypeView>,
    i: int,
    acc: DataTypeView,
)
    requires
        0 <= i <= types.len(),
    ensures
        !(common_from(f, types, i, acc) matches Err(PlanErrorView::NotSupported(_))),
    decreases types.len() - i,
{
    if i < types.len() {
        match pair_type(f, acc, types[i]) {
            Ok(t) => common_types_do_not_refuse(f, types, i + 1, t),
            Err(_) => {},
        }
    }
}

/// Arguments of exactly the given number.
pub open spec fn exact_count(f: Seq<char>, n: nat, expected: nat) -> Result<(), PlanErrorView> {
    if n == expected {
        Ok(())
    } else {
        Err(count_mismatch(f, text::decimal(expected) + " arguments"@, n))
    }
}

/// Checks that there are exactly so many arguments.
pub fn validate_exact_arg_count(func_name: &str, args: &Vec<ScalarExpr>, expected: usize) -> (made:
    Result<(), PlanError>)
    ensures
        error::outcome(made) == exact_count(func_name@, args@.len(), expected as nat),
{
    if args.len() == expected {
        return Ok(());
    }
    let wanted = cat2(show_usize(expected).as_str(), " arguments");
    Err(count_error(func_name, wanted.as_str(), args.len()))
}

/// Arguments of at least the given number.
pub open spec fn least_count(f: Seq<char>, n: nat, min: nat) -> Result<(), PlanErrorView> {
    if n >= min {
        Ok(())
    } else {
        Err(count_mismatch(f, "at least "@ + text::decimal(min) + " arguments"@, n))
    }
}

/// Checks that there are at least so many arguments.
pub fn validate_min_arg_count(func_name: &str, args: &Vec<ScalarExpr>, min: usize) -> (made: Result<
    (),
    PlanError,
>)
    ensures
        error::outcome(made) == least_count(func_name@, args@.len(), min as nat),
{
    if args.len() >= min {
        return Ok(());
    }
    let wanted = cat3("at least ", show_usize(min).as_str(), " arguments");
    Err(count_error(func_name, wanted.as_str(), args.len()))
}

/// The rule of `current_schemas`.
pub open spec fn current_schemas_rule(types: Seq<DataTypeView>) -> Result<(), PlanErrorView> {
    if types.len() != 1 {
        Err(count_mismatch("current_schemas"@, "1 argument"@, types.len()))
    } else if types[0] is Bool || types[0] is Null {
        Ok(())
    } else {
        Err(arg_mismatch("current_schemas"@, "boolean argument required"@, types[0]))
    }
}

/// Checks the arguments of `current_schemas`.
pub fn validate_current_schemas_args(args: &Vec<ScalarExpr>) -> (made: Result<(), PlanError>)
    ensures
        error::outcome(made) == current_schemas_rule(types_of(query::scalars_view(args@))),
{
    if args.len() != 1 {
        return Err(count_error("current_schemas", "1 argument", args.len()));
    }
    let t = type_at(args, 0);
    if t.is_bool() || t.is_null() {
        return Ok(());
    }
    Err(arg_error("current_schemas", "boolean argument required", &t))
}

/// Whether a type is a text type of either kind, or null.
pub open spec fn text_char_or_null(t: DataTypeView) -> bool {
    t is Text || t is Char || t is Null
}

fn is_text_char_or_null(t: &DataType) -> (yes: bool)
    ensures
        yes == text_char_or_null(t@),
{
    matches!(t, DataType::Text { .. } | DataType::Char { .. } | DataType::Null)
}

/// The rule of `set_config`.
pub open spec fn set_config_rule(types: Seq<DataTypeView>) -> Result<(), PlanErrorView> {
    if types.len() != 3 {
        Err(count_mismatch("set_config"@, "3 arguments"@, types.len()))
    } else if !text_char_or_null(types[0]) {
        Err(arg_mismatch("set_config"@, "setting name must be text"@, types[0]))
    } else if !text_char_or_null(types[1]) {
        Err(arg_mismatch("set_config"@, "setting value must be text"@, types[1]))
    } else if !(types[2] is Bool) && !(types[2] is Null) {
        Err(arg_mismatch("set_config"@, "local flag must be boolean"@, types[2]))
    } else {
        Ok(())
    }
}

/// Checks the arguments of `set_config`.
pub fn validate_set_config_args(args: &Vec<ScalarExpr>) -> (made: Result<(), PlanError>)
    ensures
        error::outcome(made) == set_config_rule(types_of(query::scalars_view(args@))),
{
    if args.len() != 3 {
        return Err(count_error("set_config", "3 arguments", args.len()));
    }
    let name = type_at(args, 0);
    let value = type_at(args, 1);
    let local = type_at(args, 2);
    if !is_text_char_or_null(&name) {
        return Err(arg_error("set_config", "setting name must be text", &name));
    }
    if !is_text_char_or_null(&value) {
        return Err(arg_error("set_config", "setting value must be text", &value));
    }
    if !local.is_bool() && !local.is_null() {
        return Err(arg_error("set_config", "local flag must be boolean", &local));
    }
    Ok(())
}

/// The rule of functions that take one object identifier.
pub open spec fn oidish_rule(f: Seq<char>, types: Seq<DataTypeView>) -> Result<(), PlanErrorView> {
    if types.len() != 1 {
        Err(count_mismatch(f, "1 argument"@, types.len()))
    } else if datatype::oid_alias(types[0]) || datatype::integral(types[0]) || types[0] is Null {
        Ok(())
    } else {
        Err(arg_mismatch(f, "OID argument required"@, types[0]))
    }
}

/// Checks the argument of a function that takes one object identifier.
pub fn validate_single_oidish_arg(func_name: &str, args: &Vec<ScalarExpr>) -> (made: Result<
    (),
    PlanError,
>)
    ensures
        error::outcome(made) == oidish_rule(func_name@, types_of(query::scalars_view(args@))),
{
    if args.len() != 1 {
        return Err(count_error(func_name, "1 argument", args.len()));
    }
    let t = type_at(args, 0);
    if t.is_oid_alias() || t.is_integer() || t.is_null() {
        return Ok(());
    }
    Err(arg_error(func_name, "OID argument required", &t))
}

/// The rule of `to_regtype`.
pub open spec fn to_regtype_rule(types: Seq<DataTypeView>) -> Result<(), PlanErrorView> {
    if types.len() != 1 {
        Err(count_mismatch("to_regtype"@, "1 argument"@, types.len()))
    } else if text_char_or_null(types[0]) || types[0] is RegType {
        Ok(())
    } else {
        Err(arg_mismatch("to_regtype"@, "text argument required"@, types[0]))
    }
}

/// Checks the argument of `to_regtype`.
pub fn validate_to_regtype_args(args: &Vec<ScalarExpr>) -> (made: Result<(), PlanError>)
    ensures
        error::outcome(made) == to_regtype_rule(types_of(query::scalars_view(args@))),
{
    if args.len() != 1 {
        return Err(count_error("to_regtype", "1 argument", args.len()));
    }
    let t = type_at(args, 0);
    if is_text_char_or_null(&t) || matches!(t, DataType::RegType) {
        return Ok(());
    }
    Err(arg_error("to_regtype", "text argument required", &t))
}

/// Whether the types from the `i`-th on are text or null; the first that is not
/// is complained about.
pub open spec fn all_texts(f: Seq<char>, types: Seq<DataTypeView>, i: int) -> Result<
    (),
    PlanErrorView,
>
    decreases types.len() - i,
{
    if i < 0 || i >= types.len() {
        Ok(())
    } else if types[i] is Null || types[i] is Text {
        all_texts(f, types, i + 1)
    } else {
        Err(arg_mismatch(f, "text arguments required"@, types[i]))
    }
}

/// The rule of the functions that inquire about privileges.
pub open spec fn privilege_rule(f: Seq<char>, types: Seq<DataTypeView>) -> Result<
    (),
    PlanErrorView,
> {
    let expected: nat = if f == "has_column_privilege"@ {
        4
    } else {
        3
    };
    match exact_count(f, types.len(), expected) {
        Err(e) => Err(e),
        Ok(_) => all_texts(f, types, 0),
    }
}

/// Checks the arguments of a function that inquires about privileges.
pub fn validate_has_privilege_args(func_name: &str, args: &Vec<ScalarExpr>) -> (made: Result<
    (),
    PlanError,
>)
    ensures
        error::outcome(made) == privilege_rule(func_name@, types_of(query::scalars_view(args@))),
{
    let expected: usize = if text_eq(func_name, "has_column_privilege") {
        4
    } else {
        3
    };
    validate_exact_arg_count(func_name, args, expected)?;
    let ghost types = types_of(query::scalars_view(args@));
    let mut i: usize = 0;
    while i < args.len()
        invariant
            i <= args.len(),
            types == types_of(query::scalars_view(args@)),
            all_texts(func_name@, types, i as int) == privilege_rule(func_name@, types),
        decreases args.len() - i,
    {
        let t = type_at(args, i);
        if !matches!(t, DataType::Null | DataType::Text { .. }) {
            return Err(arg_error(func_name, "text arguments required", &t));
        }
        i = i + 1;
    }
    Ok(())
}

/// Two or three arguments.
pub open spec fn two_or_three(f: Seq<char>, n: nat) -> Result<(), PlanErrorView> {
    if n == 2 || n == 3 {
        Ok(())
    } else {
        Err(count_mismatch(f, "2 or 3 arguments"@, n))
    }
}

/// Checks the arguments of `jsonb_path_exists`.
pub fn validate_jsonb_path_exists_args(args: &Vec<ScalarExpr>) -> (made: Result<(), PlanError>)
    ensures
        error::outcome(made) == two_or_three("jsonb_path_exists"@, args@.len()),
{
    if args.len() == 2 || args.len() == 3 {
        return Ok(());
    }
    Err(count_error("jsonb_path_exists", "2 or 3 arguments", args.len()))
}

/// An argument that is text or XML.
pub open spec fn text_or_xml(f: Seq<char>, t: DataTypeView) -> Result<(), PlanErrorView> {
    if t is Null || t is Xml || datatype::textlike(t) {
        Ok(())
    } else {
        Err(arg_mismatch(f, "expected text or xml"@, t))
    }
}

/// Checks that an argument is text or XML.
pub fn validate_text_or_xml_arg(func_name: &str, arg: &ScalarExpr) -> (made: Result<(), PlanError>)
    ensures
        error::outcome(made) == text_or_xml(func_name@, query::scalar_type(arg@)),
{
    let t = arg.data_type();
    if t.is_null() || matches!(t, DataType::Xml) || t.is_textlike() {
        return Ok(());
    }
    Err(arg_error(func_name, "expected text or xml", &t))
}

/// An argument that is text.
pub open spec fn text_rule(f: Seq<char>, t: DataTypeView) -> Result<(), PlanErrorView> {
    if t is Null || datatype::textlike(t) {
        Ok(())
    } else {
        Err(arg_mismatch(f, "expected text"@, t))
    }
}

/// Checks that an argument is text.
pub fn validate_text_arg(func_name: &str, arg: &ScalarExpr) -> (made: Result<(), PlanError>)
    ensures
        error::outcome(made) == text_rule(func_name@, query::scalar_type(arg@)),
{
    let t = arg.data_type();
    if t.is_null() || t.is_textlike() {
        return Ok(());
    }
    Err(arg_error(func_name, "expected text", &t))
}

/// An argument that is a text-search document.
pub open spec fn tsvector_rule(f: Seq<char>, t: DataTypeView) -> Result<(), PlanErrorView> {
    if t is Null || t is TsVector {
        Ok(())
    } else {
        Err(arg_mismatch(f, "expected tsvector"@, t))
    }
}

/// Checks that an argument is a text-search document.
pub fn validate_tsvector_arg(func_name: &str, arg: &ScalarExpr) -> (made: Result<(), PlanError>)
    ensures
        error::outcome(made) == tsvector_rule(func_name@, query::scalar_type(arg@)),
{
    let t = arg.data_type();
    if matches!(t, DataType::Null | DataType::TsVector) {
        return Ok(());
    }
    Err(arg_error(func_name, "expected tsvector", &t))
}

/// An argument that is a text-search query.
pub open spec fn tsquery_rule(f: Seq<char>, t: DataTypeView) -> Result<(), PlanErrorView> {
    if t is Null || t is TsQuery {
        Ok(())
    } else {
        Err(arg_mismatch(f, "expected tsquery"@, t))
    }
}

/// Checks that an argument is a text-search query.
pub fn validate_tsquery_arg(func_name: &str, arg: &ScalarExpr) -> (made: Result<(), PlanError>)
    ensures
        error::outcome(made) == tsquery_rule(func_name@, query::scalar_type(arg@)),
{
    let t = arg.data_type();
    if matches!(t, DataType::Null | DataType::TsQuery) {
        return Ok(());
    }
    Err(arg_error(func_name, "expected tsquery", &t))
}

/// Both rules: the first complaint counts.
pub open spec fn both(a: Result<(), PlanErrorView>, b: Result<(), PlanErrorView>) -> Result<
    (),
    PlanErrorView,
> {
    match a {
        Err(e) => Err(e),
        Ok(_) => b,
    }
}

/// The text of a literal.
pub open spec fn literal_text(e: ScalarExprView) -> Option<Seq<char>> {
    match e {
        ScalarExprView::Literal { value, .. } => match value {
            ValueView::Text(s) => Some(s),
            ValueView::Char(s) => Some(s),
            _ => None,
        },
        _ => None,
    }
}

/// The text of a literal.
pub fn literal_text_arg(arg: &ScalarExpr) -> (out: Option<String>)
    ensures
        (match out {
            Some(s) => Some(s@),
            None => None,
        }) == literal_text(arg@),
{
    match arg {
        ScalarExpr::Literal { value, .. } => match value {
            Value::Text(s) => Some(s.clone()),
            Value::Char(s) => Some(s.clone()),
            _ => None,
        },
        _ => None,
    }
}

/// The mode of an XML function: `DOCUMENT` or `CONTENT`.
pub open spec fn xml_mode_rule(f: Seq<char>, e: ScalarExprView) -> Result<(), PlanErrorView> {
    match literal_text(e) {
        None => Err(PlanErrorView::TypeMismatch(f + ": mode must be DOCUMENT or CONTENT"@)),
        Some(mode) => if text::same_fold(mode, "document"@) || text::same_fold(mode, "content"@) {
            Ok(())
        } else {
            Err(
                PlanErrorView::TypeMismatch(f + ": mode must be DOCUMENT or CONTENT, got "@ + mode),
            )
        },
    }
}

/// Checks the mode of an XML function.
pub fn validate_xml_mode_arg(func_name: &str, arg: &ScalarExpr) -> (made: Result<(), PlanError>)
    ensures
        error::outcome(made) == xml_mode_rule(func_name@, arg@),
{
    match literal_text_arg(arg) {
        None => Err(
            PlanError::TypeMismatch(cat2(func_name, ": mode must be DOCUMENT or CONTENT")),
        ),
        Some(mode) => {
            if eq_fold(mode.as_str(), "document") || eq_fold(mode.as_str(), "content") {
                return Ok(());
            }
            Err(
                PlanError::TypeMismatch(
                    cat3(func_name, ": mode must be DOCUMENT or CONTENT, got ", mode.as_str()),
                ),
            )
        },
    }
}

/// The rule of functions that test whether XML is well formed.
pub open spec fn well_formed_rule(f: Seq<char>, args: Seq<ScalarExprView>) -> Result<
    (),
    PlanErrorView,
> {
    match exact_count(f, args.len(), 1) {
        Err(e) => Err(e),
        Ok(_) => text_or_xml(f, query::scalar_type(args[0])),
    }
}

/// Checks the argument of a function that tests whether XML is well formed.
pub fn validate_xml_well_formed_args(func_name: &str, args: &Vec<ScalarExpr>) -> (made: Result<
    (),
    PlanError,
>)
    ensures
        error::outcome(made) == well_formed_rule(func_name@, query::scalars_view(args@)),
{
    validate_exact_arg_count(func_name, args, 1)?;
    validate_text_or_xml_arg(func_name, &args[0])
}

/// The rule of `xmlparse`.
pub open spec fn xmlparse_rule(args: Seq<ScalarExprView>) -> Result<(), PlanErrorView> {
    let f = "xmlparse"@;
    match exact_count(f, args.len(), 2) {
        Err(e) => Err(e),
        Ok(_) => both(xml_mode_rule(f, args[0]), text_or_xml(f, query::scalar_type(args[1]))),
    }
}

/// Checks the arguments of `xmlparse`.
pub fn validate_xmlparse_args(args: &Vec<ScalarExpr>) -> (made: Result<(), PlanError>)
    ensures
        error::outcome(made) == xmlparse_rule(query::scalars_view(args@)),
{
    validate_exact_arg_count("xmlparse", args, 2)?;
    validate_xml_mode_arg("xmlparse", &args[0])?;
    validate_text_or_xml_arg("xmlparse", &args[1])
}

/// The target of `xmlserialize`, which is text.
pub open spec fn xml_target_rule(e: ScalarExprView) -> Result<(), PlanErrorView> {
    match literal_text(e) {
        None => Err(
            PlanErrorView::TypeMismatch(
                "xmlserialize: target type must be a parser-supplied text literal"@,
            ),
        ),
        Some(target) => if text::same_fold(target, "text"@) {
            Ok(())
        } else {
            Err(
                PlanErrorView::TypeMismatch(
                    "xmlserialize: only AS TEXT is supported, got "@ + target,
                ),
            )
        },
    }
}

/// The rule of `xmlserialize`.
pub open spec fn xmlserialize_rule(args: Seq<ScalarExprView>) -> Result<(), PlanErrorView> {
    let f = "xmlserialize"@;
    match exact_count(f, args.len(), 3) {
        Err(e) => Err(e),
        Ok(_) => both(
            both(xml_mode_rule(f, args[0]), text_or_xml(f, query::scalar_type(args[1]))),
            xml_target_rule(args[2]),
        ),
    }
}

/// Checks the arguments of `xmlserialize`.
pub fn validate_xmlserialize_args(args: &Vec<ScalarExpr>) -> (made: Result<(), PlanError>)
    ensures
        error::outcome(made) == xmlserialize_rule(query::scalars_view(args@)),
{
    validate_exact_arg_count("xmlserialize", args, 3)?;
    validate_xml_mode_arg("xmlserialize", &args[0])?;
    validate_text_or_xml_arg("xmlserialize", &args[1])?;
    match literal_text_arg(&args[2]) {
        None => Err(
            PlanError::TypeMismatch(
                owned("xmlserialize: target type must be a parser-supplied text literal"),
            ),
        ),
        Some(target) => {
            if eq_fold(target.as_str(), "text") {
                return Ok(());
            }
            Err(
                PlanError::TypeMismatch(
                    cat2("xmlserialize: only AS TEXT is supported, got ", target.as_str()),
                ),
            )
        },
    }
}

/// The rule of `xpath` and `xpath_exists`.
pub open spec fn xpath_rule(f: Seq<char>, types: Seq<DataTypeView>) -> Result<(), PlanErrorView> {
    match two_or_three(f, types.len()) {
        Err(e) => Err(e),
        Ok(_) => both(
            both(text_or_xml(f, types[0]), text_or_xml(f, types[1])),
            if types.len() == 3 && !(types[2] is Null) && !(types[2] is Array) {
                Err(arg_mismatch(f, "namespace argument must be text[][]"@, types[2]))
            } else {
                Ok(())
            },
        ),
    }
}

/// Checks the arguments of `xpath` and `xpath_exists`.
pub fn validate_xpath_args(func_name: &str, args: &Vec<ScalarExpr>) -> (made: Result<
    (),
    PlanError,
>)
    ensures
        error::outcome(made) == xpath_rule(func_name@, types_of(query::scalars_view(args@))),
{
    if args.len() != 2 && args.len() != 3 {
        return Err(count_error(func_name, "2 or 3 arguments", args.len()));
    }
    validate_text_or_xml_arg(func_name, &args[0])?;
    validate_text_or_xml_arg(func_name, &args[1])?;
    if args.len() == 3 {
        let t = type_at(args, 2);
        if !matches!(t, DataType::Null | DataType::Array(_)) {
            return Err(arg_error(func_name, "namespace argument must be text[][]", &t));
        }
    }
    Ok(())
}

/// The rule of functions that inspect internet addresses.
pub open spec fn network_rule(f: Seq<char>, types: Seq<DataTypeView>) -> Result<(), PlanErrorView> {
    match exact_count(f, types.len(), 1) {
        Err(e) => Err(e),
        Ok(_) => if types[0] is Null || types[0] is Inet || types[0] is Cidr {
            Ok(())
        } else {
            Err(arg_mismatch(f, "expected inet or cidr"@, types[0]))
        },
    }
}

/// Checks the argument of a function that inspects internet addresses.
pub fn validate_network_inspector_args(func_name: &str, args: &Vec<ScalarExpr>) -> (made: Result<
    (),
    PlanError,
>)
    ensures
        error::outcome(made) == network_rule(func_name@, types_of(query::scalars_view(args@))),
{
    validate_exact_arg_count(func_name, args, 1)?;
    let t = type_at(args, 0);
    if matches!(t, DataType::Null | DataType::Inet | DataType::Cidr) {
        return Ok(());
    }
    Err(arg_error(func_name, "expected inet or cidr", &t))
}

/// The rule of functions that make text-search documents and queries.
pub open spec fn search_constructor_rule(f: Seq<char>, types: Seq<DataTypeView>) -> Result<
    (),
    PlanErrorView,
> {
    if types.len() == 1 {
        text_rule(f, types[0])
    } else if types.len() == 2 {
        both(text_rule(f, types[0]), text_rule(f, types[1]))
    } else {
        Err(count_mismatch(f, "1 or 2 arguments"@, types.len()))
    }
}

/// Checks the arguments of a function that makes text-search documents or
/// queries.
pub fn validate_text_search_constructor_args(func_name: &str, args: &Vec<ScalarExpr>) -> (made:
    Result<(), PlanError>)
    ensures
        error::outcome(made) == search_constructor_rule(
            func_name@,
            types_of(query::scalars_view(args@)),
        ),
{
    if args.len() == 1 {
        validate_text_arg(func_name, &args[0])
    } else if args.len() == 2 {
        validate_text_arg(func_name, &args[0])?;
        validate_text_arg(func_name, &args[1])
    } else {
        Err(count_error(func_name, "1 or 2 arguments", args.len()))
    }
}

/// The rule of functions that rank text-search documents.
pub open spec fn ts_rank_rule(f: Seq<char>, types: Seq<DataTypeView>) -> Result<(), PlanErrorView> {
    match exact_count(f, types.len(), 2) {
        Err(e) => Err(e),
        Ok(_) => both(tsvector_rule(f, types[0]), tsquery_rule(f, types[1])),
    }
}

/// Checks the arguments of a function that ranks text-search documents.
pub fn validate_ts_rank_args(func_name: &str, args: &Vec<ScalarExpr>) -> (made: Result<
    (),
    PlanError,
>)
    ensures
        error::outcome(made) == ts_rank_rule(func_name@, types_of(query::scalars_view(args@))),
{
    validate_exact_arg_count(func_name, args, 2)?;
    validate_tsvector_arg(func_name, &args[0])?;
    validate_tsquery_arg(func_name, &args[1])
}

/// The rule of `ts_headline`.
pub open spec fn ts_headline_rule(types: Seq<DataTypeView>) -> Result<(), PlanErrorView> {
    let f = "ts_headline"@;
    if types.len() == 2 {
        both(text_rule(f, types[0]), tsquery_rule(f, types[1]))
    } else if types.len() == 3 {
        both(both(text_rule(f, types[0]), text_rule(f, types[1])), tsquery_rule(f, types[2]))
    } else {
        Err(count_mismatch(f, "2 or 3 arguments"@, types.len()))
    }
}

/// Checks the arguments of `ts_headline`.
pub fn validate_ts_headline_args(args: &Vec<ScalarExpr>) -> (made: Result<(), PlanError>)
    ensures
        error::outcome(made) == ts_headline_rule(types_of(query::scalars_view(args@))),
{
    if args.len() == 2 {
        validate_text_arg("ts_headline", &args[0])?;
        validate_tsquery_arg("ts_headline", &args[1])
    } else if args.len() == 3 {
        validate_text_arg("ts_headline", &args[0])?;
        validate_text_arg("ts_headline", &args[1])?;
        validate_tsquery_arg("ts_headline", &args[2])
    } else {
        Err(count_error("ts_headline", "2 or 3 arguments", args.len()))
    }
}

/// The rule of functions that inspect text-search queries.
pub open spec fn tsquery_inspector_rule(f: Seq<char>, types: Seq<DataTypeView>) -> Result<
    (),
    PlanErrorView,
> {
    match exact_count(f, types.len(), 1) {
        Err(e) => Err(e),
        Ok(_) => tsquery_rule(f, types[0]),
    }
}

/// Checks the argument of a function that inspects text-search queries.
pub fn validate_tsquery_inspector_args(func_name: &str, args: &Vec<ScalarExpr>) -> (made: Result<
    (),
    PlanError,
>)
    ensures
        error::outcome(made) == tsquery_inspector_rule(
            func_name@,
            types_of(query::scalars_view(args@)),
        ),
{
    validate_exact_arg_count(func_name, args, 1)?;
    validate_tsquery_arg(func_name, &args[0])
}

/// The family of a vector type that distances are defined on, as a number.
pub open spec fn metric_kind(t: DataTypeView) -> Option<u8> {
    match t {
        DataTypeView::Vector { .. } => Some(0),
        DataTypeView::HalfVec { .. } => Some(1),
        DataTypeView::SparseVec { .. } => Some(2),
        _ => None,
    }
}

/// The family of a vector type that distances are defined on, as a number.
pub fn vector_metric_family_kind(data_type: &DataType) -> (out: Option<u8>)
    ensures
        out == metric_kind(data_type@),
{
    match data_type {
        DataType::Vector { .. } => Some(0),
        DataType::HalfVec { .. } => Some(1),
        DataType::SparseVec { .. } => Some(2),
        _ => None,
    }
}

/// The family of a dense vector type, as a number.
pub open spec fn dense_kind(t: DataTypeView) -> Option<u8> {
    match t {
        DataTypeView::Vector { .. } => Some(0),
        DataTypeView::HalfVec { .. } => Some(1),
        _ => None,
    }
}

/// The family of a dense vector type, as a number.
pub fn dense_vector_family_kind(data_type: &DataType) -> (out: Option<u8>)
    ensures
        out == dense_kind(data_type@),
{
    match data_type {
        DataType::Vector { .. } => Some(0),
        DataType::HalfVec { .. } => Some(1),
        _ => None,
    }
}

fn same_kind(a: Option<u8>, b: Option<u8>) -> (yes: bool)
    ensures
        yes == (a is Some && a == b),
{
    match (a, b) {
        (Some(x), Some(y)) => x == y,
        _ => false,
    }
}

/// The operands of a distance, each literal among them coerced to the type of
/// the other.
pub open spec fn metric_coerced(args: Seq<ScalarExprView>, r: ReadingsView) -> Seq<ScalarExprView> {
    let left = query::scalar_type(args[0]);
    let right = query::scalar_type(args[1]);
    let first = if metric_kind(left) is Some {
        args.update(1, coerce::coerced(args[1], left, r))
    } else {
        args
    };
    if metric_kind(right) is Some {
        first.update(0, coerce::coerced(args[0], right, r))
    } else {
        first
    }
}

/// Coerces the literals among the operands of a distance.
pub fn coerce_vector_metric_literals(args: &mut Vec<ScalarExpr>, readings: &Readings)
    requires
        old(args).len() >= 2,
    ensures
        final(args)@.len() == old(args)@.len(),
        query::scalars_view(final(args)@) == metric_coerced(
            query::scalars_view(old(args)@),
            readings@,
        ),
{
    let left = type_at(args, 0);
    let right = type_at(args, 1);
    if vector_metric_family_kind(&left).is_some() {
        coerce_at(args, 1, &left, readings);
    }
    if vector_metric_family_kind(&right).is_some() {
        coerce_at(args, 0, &right, readings);
    }
}

/// The rule of distances.
pub open spec fn metric_rule(f: Seq<char>, left: DataTypeView, right: DataTypeView) -> Result<
    (),
    PlanErrorView,
> {
    if left is Null && (right is Null || metric_kind(right) is Some) {
        Ok(())
    } else if right is Null && metric_kind(left) is Some {
        Ok(())
    } else if metric_kind(left) is Some && metric_kind(left) == metric_kind(right)
        && typename::dims_agree(typename::dims_of(left), typename::dims_of(right)) {
        Ok(())
    } else {
        Err(
            args_mismatch(
                f,
                "compatible vector, halfvec, or sparsevec operands required"@,
                left,
                right,
            ),
        )
    }
}

/// The outcome of checking the operands of a distance, and the operands after
/// it.
pub open spec fn metric_checked(f: Seq<char>, args: Seq<ScalarExprView>, r: ReadingsView) -> (
    Result<(), PlanErrorView>,
    Seq<ScalarExprView>,
) {
    match exact_count(f, args.len(), 2) {
        Err(e) => (Err(e), args),
        Ok(_) => {
            let out = metric_coerced(args, r);
            (
                metric_rule(f, query::scalar_type(out[0]), query::scalar_type(out[1])),
                out,
            )
        },
    }
}

/// Checks the operands of a distance.
pub fn validate_vector_metric_args(
    func_name: &str,
    args: &mut Vec<ScalarExpr>,
    readings: &Readings,
) -> (made: Result<(), PlanError>)
    ensures
        (error::outcome(made), query::scalars_view(final(args)@)) == metric_checked(
            func_name@,
            query::scalars_view(old(args)@),
            readings@,
        ),
{
    validate_exact_arg_count(func_name, args, 2)?;
    coerce_vector_metric_literals(args, readings);
    let left = type_at(args, 0);
    let right = type_at(args, 1);
    let left_kind = vector_metric_family_kind(&left);
    let right_kind = vector_metric_family_kind(&right);
    if left.is_null() && (right.is_null() || right_kind.is_some()) {
        return Ok(());
    }
    if right.is_null() && left_kind.is_some() {
        return Ok(());
    }
    if same_kind(left_kind, right_kind) && dims_compatible(
        vector_dims(&left),
        vector_dims(&right),
    ) {
        return Ok(());
    }
    Err(
        args_error(
            func_name,
            "compatible vector, halfvec, or sparsevec operands required",
            &left,
            &right,
        ),
    )
}

/// The rule of vector norms.
pub open spec fn norm_rule(f: Seq<char>, types: Seq<DataTypeView>) -> Result<(), PlanErrorView> {
    if types.len() != 1 {
        Err(count_mismatch(f, "1 argument"@, types.len()))
    } else if types[0] is Null || metric_kind(types[0]) is Some {
        Ok(())
    } else {
        Err(arg_mismatch(f, "vector, halfvec, or sparsevec argument required"@, types[0]))
    }
}

/// Checks the argument of a vector norm.
pub fn validate_vector_norm_args(func_name: &str, args: &Vec<ScalarExpr>) -> (made: Result<
    (),
    PlanError,
>)
    ensures
        error::outcome(made) == norm_rule(func_name@, types_of(query::scalars_view(args@))),
{
    if args.len() != 1 {
        return Err(count_error(func_name, "1 argument", args.len()));
    }
    let t = type_at(args, 0);
    if t.is_null() || vector_metric_family_kind(&t).is_some() {
        return Ok(());
    }
    Err(arg_error(func_name, "vector, halfvec, or sparsevec argument required", &t))
}

/// The rule of `vector_dims`.
pub open spec fn vector_dims_rule(types: Seq<DataTypeView>) -> Result<(), PlanErrorView> {
    if types.len() != 1 {
        Err(count_mismatch("vector_dims"@, "1 argument"@, types.len()))
    } else if types[0] is Null || datatype::vector_family(types[0]) {
        Ok(())
    } else {
        Err(arg_mismatch("vector_dims"@, "vector-family argument required"@, types[0]))
    }
}

/// Checks the argument of `vector_dims`.
pub fn validate_vector_dims_args(args: &Vec<ScalarExpr>) -> (made: Result<(), PlanError>)
    ensures
        error::outcome(made) == vector_dims_rule(types_of(query::scalars_view(args@))),
{
    if args.len() != 1 {
        return Err(count_error("vector_dims", "1 argument", args.len()));
    }
    let t = type_at(args, 0);
    if t.is_null() || t.is_vector_family() {
        return Ok(());
    }
    Err(arg_error("vector_dims", "vector-family argument required", &t))
}

/// The arguments of `hybrid_search`, each literal among the two vectors coerced
/// to the type of the other.
pub open spec fn hybrid_coerced(args: Seq<ScalarExprView>, r: ReadingsView) -> Seq<ScalarExprView> {
    let vector = query::scalar_type(args[2]);
    let probe = query::scalar_type(args[3]);
    let first = if dense_kind(vector) is Some {
        args.update(3, coerce::coerced(args[3], vector, r))
    } else {
        args
    };
    if dense_kind(probe) is Some {
        first.update(2, coerce::coerced(args[2], probe, r))
    } else {
        first
    }
}

/// Coerces the literals among the vectors of `hybrid_search`.
pub fn coerce_hybrid_vector_literals(args: &mut Vec<ScalarExpr>, readings: &Readings)
    requires
        old(args).len() >= 4,
    ensures
        final(args)@.len() == old(args)@.len(),
        query::scalars_view(final(args)@) == hybrid_coerced(
            query::scalars_view(old(args)@),
            readings@,
        ),
{
    let vector = type_at(args, 2);
    let probe = type_at(args, 3);
    if dense_vector_family_kind(&vector).is_some() {
        coerce_at(args, 3, &vector, readings);
    }
    if dense_vector_family_kind(&probe).is_some() {
        coerce_at(args, 2, &probe, readings);
    }
}

/// The rule of the arguments of `hybrid_search` that are not vectors.
pub open spec fn hybrid_text_rule(types: Seq<DataTypeView>) -> Result<(), PlanErrorView> {
    let f = "hybrid_search"@;
    if types.len() != 4 && types.len() != 5 {
        Err(count_mismatch(f, "4 or 5 arguments"@, types.len()))
    } else if types.len() == 5 && !(types[4] is Text) {
        Err(arg_mismatch(f, "fifth argument (fusion method) must be text"@, types[4]))
    } else if !(types[0] is Text) && !(types[0] is Json) && !(types[0] is Jsonb) {
        Err(arg_mismatch(f, "first argument must be text/json/jsonb"@, types[0]))
    } else if !(types[1] is Text) {
        Err(arg_mismatch(f, "second argument must be text"@, types[1]))
    } else {
        Ok(())
    }
}

/// The rule of the vectors of `hybrid_search`.
pub open spec fn hybrid_vector_rule(vector: DataTypeView, probe: DataTypeView) -> Result<
    (),
    PlanErrorView,
> {
    if dense_kind(vector) is Some && dense_kind(vector) == dense_kind(probe)
        && typename::dims_agree(typename::dims_of(vector), typename::dims_of(probe)) {
        Ok(())
    } else {
        Err(
            args_mismatch(
                "hybrid_search"@,
                "third and fourth arguments must be compatible vector or halfvec values"@,
                vector,
                probe,
            ),
        )
    }
}

/// The outcome of checking the arguments of `hybrid_search`, and the arguments
/// after it.
pub open spec fn hybrid_checked(args: Seq<ScalarExprView>, r: ReadingsView) -> (
    Result<(), PlanErrorView>,
    Seq<ScalarExprView>,
) {
    match hybrid_text_rule(types_of(args)) {
        Err(e) => (Err(e), args),
        Ok(_) => {
            let out = hybrid_coerced(args, r);
            (hybrid_vector_rule(query::scalar_type(out[2]), query::scalar_type(out[3])), out)
        },
    }
}

fn check_hybrid_texts(args: &Vec<ScalarExpr>) -> (made: Result<(), PlanError>)
    ensures
        error::outcome(made) == hybrid_text_rule(types_of(query::scalars_view(args@))),
{
    if args.len() != 4 && args.len() != 5 {
        return Err(count_error("hybrid_search", "4 or 5 arguments", args.len()));
    }
    if args.len() == 5 {
        let fusion = type_at(args, 4);
        if !matches!(fusion, DataType::Text { .. }) {
            return Err(
                arg_error("hybrid_search", "fifth argument (fusion method) must be text", &fusion),
            );
        }
    }
    let document = type_at(args, 0);
    if !matches!(document, DataType::Text { .. } | DataType::Json | DataType::Jsonb) {
        return Err(
            arg_error("hybrid_search", "first argument must be text/json/jsonb", &document),
        );
    }
    let wanted = type_at(args, 1);
    if !matches!(wanted, DataType::Text { .. }) {
        return Err(arg_error("hybrid_search", "second argument must be text", &wanted));
    }
    Ok(())
}

/// Checks the arguments of `hybrid_search`.
pub fn validate_hybrid_search_args(
    args: &mut Vec<ScalarExpr>,
    readings: &Readings,
) -> (made: Result<
    (),
    PlanError,
>)
    ensures
        (error::outcome(made), query::scalars_view(final(args)@)) == hybrid_checked(
            query::scalars_view(old(args)@),
            readings@,
        ),
{
    check_hybrid_texts(args)?;
    coerce_hybrid_vector_literals(args, readings);
    let vector = type_at(args, 2);
    let probe = type_at(args, 3);
    if same_kind(
        dense_vector_family_kind(&vector),
        dense_vector_family_kind(&probe),
    ) && dims_compatible(vector_dims(&vector), vector_dims(&probe)) {
        return Ok(());
    }
    Err(
        args_error(
            "hybrid_search",
            "third and fourth arguments must be compatible vector or halfvec values",
            &vector,
            &probe,
        ),
    )
}

/// Whether a function is a distance between vectors.
pub open spec fn metric_builtin(n: Seq<char>) -> bool {
    n == "l2_distance"@ || n == "cosine_distance"@ || n == "inner_product"@ || n == "dot_product"@
        || n == "l1_distance"@
}

fn is_metric_builtin(n: &str) -> (yes: bool)
    ensures
        yes == metric_builtin(n@),
{
    text_eq(n, "l2_distance") || text_eq(n, "cosine_distance") || text_eq(n, "inner_product")
        || text_eq(n, "dot_product") || text_eq(n, "l1_distance")
}

/// Whether a function inquires about privileges.
pub open spec fn privilege_builtin(n: Seq<char>) -> bool {
    n == "has_table_privilege"@ || n == "has_schema_privilege"@ || n == "has_database_privilege"@
        || n == "has_sequence_privilege"@ || n == "has_function_privilege"@ || n
        == "has_column_privilege"@
}

fn is_privilege_builtin(n: &str) -> (yes: bool)
    ensures
        yes == privilege_builtin(n@),
{
    text_eq(n, "has_table_privilege") || text_eq(n, "has_schema_privilege") || text_eq(
        n,
        "has_database_privilege",
    ) || text_eq(n, "has_sequence_privilege") || text_eq(n, "has_function_privilege") || text_eq(
        n,
        "has_column_privilege",
    )
}

/// The rule of a builtin function that does not change its arguments.
pub open spec fn args_rule(f: Seq<char>, args: Seq<ScalarExprView>) -> Result<(), PlanErrorView> {
    let types = types_of(args);
    if f == "ifnull"@ || f == "nvl"@ || f == "nullif"@ {
        exact_count(f, args.len(), 2)
    } else if f == "least"@ || f == "greatest"@ {
        least_count(f, args.len(), 1)
    } else if f == "min"@ || f == "max"@ {
        least_count(f, args.len(), 2)
    } else if f == "vector_norm"@ || f == "l2_norm"@ {
        norm_rule(f, types)
    } else if f == "vector_dims"@ {
        vector_dims_rule(types)
    } else if f == "jsonb_path_exists"@ {
        two_or_three(f, args.len())
    } else if f == "to_tsvector"@ || search_query_builtin(f) {
        search_constructor_rule(f, types)
    } else if f == "ts_rank"@ || f == "ts_rank_cd"@ {
        ts_rank_rule(f, types)
    } else if f == "ts_headline"@ {
        ts_headline_rule(types)
    } else if f == "numnode"@ || f == "querytree"@ {
        tsquery_inspector_rule(f, types)
    } else if f == "xmlparse"@ {
        xmlparse_rule(args)
    } else if f == "xmlserialize"@ {
        xmlserialize_rule(args)
    } else if f == "xml_is_well_formed"@ || f == "xml_is_well_formed_content"@ || f
        == "xml_is_well_formed_document"@ {
        well_formed_rule(f, args)
    } else if f == "xpath"@ || f == "xpath_exists"@ {
        xpath_rule(f, types)
    } else if f == "host"@ || f == "family"@ || f == "masklen"@ {
        network_rule(f, types)
    } else if privilege_builtin(f) {
        privilege_rule(f, types)
    } else if f == "pg_table_is_visible"@ || f == "pg_is_other_temp_schema"@ {
        oidish_rule(f, types)
    } else if f == "current_schemas"@ {
        current_schemas_rule(types)
    } else if f == "to_regtype"@ {
        to_regtype_rule(types)
    } else if f == "set_config"@ {
        set_config_rule(types)
    } else {
        Ok(())
    }
}

fn check_args(f: &str, args: &Vec<ScalarExpr>) -> (made: Result<(), PlanError>)
    ensures
        error::outcome(made) == args_rule(f@, query::scalars_view(args@)),
{
    if text_eq(f, "ifnull") || text_eq(f, "nvl") || text_eq(f, "nullif") {
        validate_exact_arg_count(f, args, 2)
    } else if text_eq(f, "least") || text_eq(f, "greatest") {
        validate_min_arg_count(f, args, 1)
    } else if text_eq(f, "min") || text_eq(f, "max") {
        validate_min_arg_count(f, args, 2)
    } else if text_eq(f, "vector_norm") || text_eq(f, "l2_norm") {
        validate_vector_norm_args(f, args)
    } else if text_eq(f, "vector_dims") {
        validate_vector_dims_args(args)
    } else if text_eq(f, "jsonb_path_exists") {
        validate_jsonb_path_exists_args(args)
    } else if text_eq(f, "to_tsvector") || is_search_query_builtin(f) {
        validate_text_search_constructor_args(f, args)
    } else if text_eq(f, "ts_rank") || text_eq(f, "ts_rank_cd") {
        validate_ts_rank_args(f, args)
    } else if text_eq(f, "ts_headline") {
        validate_ts_headline_args(args)
    } else if text_eq(f, "numnode") || text_eq(f, "querytree") {
        validate_tsquery_inspector_args(f, args)
    } else if text_eq(f, "xmlparse") {
        validate_xmlparse_args(args)
    } else if text_eq(f, "xmlserialize") {
        validate_xmlserialize_args(args)
    } else if text_eq(f, "xml_is_well_formed") || text_eq(f, "xml_is_well_formed_content")
        || text_eq(f, "xml_is_well_formed_document") {
        validate_xml_well_formed_args(f, args)
    } else if text_eq(f, "xpath") || text_eq(f, "xpath_exists") {
        validate_xpath_args(f, args)
    } else if text_eq(f, "host") || text_eq(f, "family") || text_eq(f, "masklen") {
        validate_network_inspector_args(f, args)
    } else if is_privilege_builtin(f) {
        validate_has_privilege_args(f, args)
    } else if text_eq(f, "pg_table_is_visible") || text_eq(f, "pg_is_other_temp_schema") {
        validate_single_oidish_arg(f, args)
    } else if text_eq(f, "current_schemas") {
        validate_current_schemas_args(args)
    } else if text_eq(f, "to_regtype") {
        validate_to_regtype_args(args)
    } else if text_eq(f, "set_config") {
        validate_set_config_args(args)
    } else {
        Ok(())
    }
}

/// The outcome of checking the arguments of a builtin function, and the
/// arguments after it.
pub open spec fn args_checked(f: Seq<char>, args: Seq<ScalarExprView>, r: ReadingsView) -> (
    Result<(), PlanErrorView>,
    Seq<ScalarExprView>,
) {
    if metric_builtin(f) {
        metric_checked(f, args, r)
    } else if f == "hybrid_search"@ {
        hybrid_checked(args, r)
    } else {
        (args_rule(f, args), args)
    }
}

/// Checks the arguments of a builtin function.
pub fn validate_builtin_args(
    func_name: &str,
    args: &mut Vec<ScalarExpr>,
    readings: &Readings,
) -> (made:
    Result<(), PlanError>)
    ensures
        (error::outcome(made), query::scalars_view(final(args)@)) == args_checked(
            func_name@,
            query::scalars_view(old(args)@),
            readings@,
        ),
{
    if is_metric_builtin(func_name) {
        validate_vector_metric_args(func_name, args, readings)
    } else if text_eq(func_name, "hybrid_search") {
        validate_hybrid_search_args(args, readings)
    } else {
        check_args(func_name, args)
    }
}

/// A collation that needs no catalog.
#[derive(Debug, Clone, Copy, PartialEq, Eq, Structural)]
pub enum BuiltinCollation {
    Default,
    C,
    Posix,
}

/// The object identifier of a collation.
pub open spec fn collation_oid(c: BuiltinCollation) -> u32 {
    match c {
        BuiltinCollation::Default => 100,
        BuiltinCollation::C => 950,
        BuiltinCollation::Posix => 951,
    }
}

impl BuiltinCollation {
    /// The object identifier of the collation.
    pub fn oid(self) -> (n: u32)
        ensures
            n == collation_oid(self),
    {
        match self {
            BuiltinCollation::Default => 100,
            BuiltinCollation::C => 950,
            BuiltinCollation::Posix => 951,
        }
    }
}

/// The last part of the name of a collation, where only `pg_catalog` may stand
/// before it.
pub open spec fn collation_name(name: ObjectName) -> Option<Seq<char>> {
    let parts = name.parts@;
    if parts.len() == 1 {
        Some(text::lower(parts[0].value@))
    } else if parts.len() == 2 && text::lower(parts[0].value@) == "pg_catalog"@ {
        Some(text::lower(parts[1].value@))
    } else {
        None
    }
}

/// The collation that a name stands for.
pub open spec fn named_collation(name: ObjectName) -> Result<BuiltinCollation, PlanErrorView> {
    let unknown = PlanErrorView::TypeMismatch(
        "unsupported collation "@ + names::dotted(name.parts@, name.parts@.len() as int),
    );
    match collation_name(name) {
        None => Err(unknown),
        Some(n) => if n == "default"@ {
            Ok(BuiltinCollation::Default)
        } else if n == "c"@ {
            Ok(BuiltinCollation::C)
        } else if n == "posix"@ {
            Ok(BuiltinCollation::Posix)
        } else {
            Err(unknown)
        },
    }
}

fn unknown_collation(name: &ObjectName) -> (e: PlanError)
    ensures
        e@ == PlanErrorView::TypeMismatch(
            "unsupported collation "@ + names::dotted(name.parts@, name.parts@.len() as int),
        ),
{
    PlanError::TypeMismatch(
        cat2("unsupported collation ", names::dotted_name(name).as_str()),
    )
}

/// Resolves the name of a collation.
pub fn resolve_builtin_collation(collation: &ObjectName) -> (made: Result<
    BuiltinCollation,
    PlanError,
>)
    ensures
        error::outcome(made) == named_collation(*collation),
{
    let parts = &collation.parts;
    let folded = if parts.len() == 1 {
        to_lower(parts[0].value.as_str())
    } else if parts.len() == 2 && text_eq(
        to_lower(parts[0].value.as_str()).as_str(),
        "pg_catalog",
    ) {
        to_lower(parts[1].value.as_str())
    } else {
        return Err(unknown_collation(collation));
    };
    let n = folded.as_str();
    if text_eq(n, "default") {
        Ok(BuiltinCollation::Default)
    } else if text_eq(n, "c") {
        Ok(BuiltinCollation::C)
    } else if text_eq(n, "posix") {
        Ok(BuiltinCollation::Posix)
    } else {
        Err(unknown_collation(collation))
    }
}

/// A text expression under a collation.
pub open spec fn collated(name: ObjectName, e: ScalarExprView) -> Result<
    ScalarExprView,
    PlanErrorView,
> {
    match named_collation(name) {
        Err(err) => Err(err),
        Ok(_) => if datatype::textlike(query::scalar_type(e)) {
            Ok(e)
        } else {
            Err(
                typing::type_mismatch("COLLATE applies to text types, got "@, query::scalar_type(e)),
            )
        },
    }
}

/// Puts a text expression under a collation.
pub fn bind_collated_expr(collation: &ObjectName, bound: ScalarExpr) -> (made: Result<
    ScalarExpr,
    PlanError,
>)
    ensures
        error::scalar_outcome(made) == collated(*collation, bound@),
{
    resolve_builtin_collation(collation)?;
    let t = bound.data_type();
    if !t.is_textlike() {
        return Err(typing::type_error("COLLATE applies to text types, got ", &t));
    }
    Ok(bound)
}

} // verus!

//! The types of what calls give.
use crate::datatype;
use crate::datatype::DataTypeView;
use crate::dialect::builtin;
use vstd::prelude::*;

verus! {

/// Whether a function gives a type whatever it is called on.
pub open spec fn gives(n: Seq<char>, t: DataTypeView) -> bool {
    match t {
        DataTypeView::Int64 => {
            ||| n == "extract"@ || n == "abs"@
            ||| n == "bit_count"@ || n == "pg_relation_size"@
        },
        DataTypeView::Date => {
            ||| n == "current_date"@ || n == "make_date"@
        },
        DataTypeView::TimestampTz => {
            ||| n == "now"@ || n == "current_timestamp"@
            ||| n == "date_trunc"@ || n == "to_timestamp"@
            ||| n == "date_bin"@
        },
        DataTypeView::Float64 => {
            ||| n == "ceil"@ || n == "floor"@
            ||| n == "round"@ || n == "trunc"@
            ||| n == "mod"@ || n == "power"@
            ||| n == "sqrt"@ || n == "exp"@
            ||| n == "ln"@ || n == "log"@
            ||| n == "random"@ || n == "sin"@
            ||| n == "cos"@ || n == "tan"@
            ||| n == "asin"@ || n == "acos"@
            ||| n == "atan"@ || n == "pi"@
            ||| n == "ts_rank"@ || n == "ts_rank_cd"@
            ||| n == "l2_distance"@ || n == "cosine_distance"@
            ||| n == "inner_product"@ || n == "dot_product"@
            ||| n == "l1_distance"@ || n == "hybrid_search"@
            ||| n == "vector_norm"@ || n == "l2_norm"@
        },
        DataTypeView::Int32 => {
            ||| n == "length"@ || n == "position"@
            ||| n == "bit_length"@ || n == "octet_length"@
            ||| n == "get_bit"@ || n == "numnode"@
            ||| n == "family"@ || n == "masklen"@
            ||| n == "array_length"@ || n == "array_ndims"@
            ||| n == "array_lower"@ || n == "array_upper"@
            ||| n == "cardinality"@ || n == "array_position"@
            ||| n == "vector_dims"@
        },
        DataTypeView::Text { max_len: None } => {
            ||| n == "lower"@ || n == "upper"@
            ||| n == "trim"@ || n == "lpad"@
            ||| n == "rpad"@ || n == "left"@
            ||| n == "right"@ || n == "substr"@
            ||| n == "substring"@ || n == "replace"@
            ||| n == "split_part"@ || n == "concat"@
            ||| n == "concat_ws"@ || n == "repeat"@
            ||| n == "reverse"@ || n == "md5"@
            ||| n == "sha256"@ || n == "quote_ident"@
            ||| n == "quote_literal"@ || n == "format"@
            ||| n == "regexp_replace"@ || n == "ts_headline"@
            ||| n == "querytree"@ || n == "xmlserialize"@
            ||| n == "host"@ || n == "pg_get_userbyid"@
            ||| n == "array_dims"@ || n == "array_to_string"@
            ||| n == "version"@ || n == "current_catalog"@
            ||| n == "current_database"@ || n == "current_schema"@
            ||| n == "current_user"@ || n == "session_user"@
            ||| n == "pg_typeof"@ || n == "pg_size_pretty"@
            ||| n == "set_config"@ || n == "format_type"@
            ||| n == "pg_get_expr"@ || n == "pg_get_indexdef"@
            ||| n == "pg_get_constraintdef"@ || n == "pg_get_statisticsobjdef_columns"@
            ||| n == "pg_get_function_result"@ || n == "pg_get_function_arguments"@
            ||| n == "pg_encoding_to_char"@ || n == "obj_description"@
            ||| n == "shobj_description"@ || n == "col_description"@
            ||| n == "pg_get_serial_sequence"@
        },
        DataTypeView::TsQuery => {
            ||| n == "to_tsquery"@ || n == "plainto_tsquery"@
            ||| n == "websearch_to_tsquery"@ || n == "phraseto_tsquery"@
        },
        DataTypeView::Jsonb => {
            ||| n == "row_to_json"@ || n == "json_build_object"@
            ||| n == "jsonb_set"@
        },
        DataTypeView::Bool => {
            ||| n == "jsonb_path_exists"@ || n == "xml_is_well_formed"@
            ||| n == "xml_is_well_formed_content"@ || n == "xml_is_well_formed_document"@
            ||| n == "xpath_exists"@ || n == "pg_try_advisory_lock"@
            ||| n == "pg_try_advisory_xact_lock"@ || n == "pg_advisory_unlock"@
            ||| n == "has_table_privilege"@ || n == "has_schema_privilege"@
            ||| n == "has_database_privilege"@ || n == "has_sequence_privilege"@
            ||| n == "has_function_privilege"@ || n == "has_column_privilege"@
            ||| n == "pg_table_is_visible"@ || n == "pg_is_other_temp_schema"@
            ||| n == "pg_function_is_visible"@ || n == "pg_relation_is_publishable"@
        },
        DataTypeView::Array(element) => match *element {
            DataTypeView::Text { max_len: None } => {
                ||| n == "current_schemas"@ || n == "string_to_array"@
                ||| n == "array_cat"@
            },
            DataTypeView::Xml => n == "xpath"@,
            _ => false,
        },
        DataTypeView::Interval => n == "age"@,
        DataTypeView::VarBit { max_len: None } => n == "set_bit"@,
        DataTypeView::TsVector => n == "to_tsvector"@,
        DataTypeView::Xml => n == "xmlparse"@,
        DataTypeView::RegType => n == "to_regtype"@,
        DataTypeView::Uuid => n == "gen_random_uuid"@,
        DataTypeView::Null => n == "pg_advisory_lock"@ || n == "pg_advisory_unlock_all"@,
        _ => false,
    }
}

/// A call of a function with a type of its own gives that type, whatever it is called
/// on.
pub proof fn functions_give_their_type(n: Seq<char>, types: Seq<DataTypeView>)
    ensures
        builtin::fixed_type(n) matches Some(t) ==> gives(n, t) && builtin::answer_type(n, types)
            == Ok::<DataTypeView, crate::error::PlanErrorView>(t),
{
}

/// A point in time seen from a zone has none any more, and one without a zone gets
/// one; the zone is named by a text.
pub proof fn zones_turn_points_in_time(types: Seq<DataTypeView>)
    ensures
        builtin::zone_type(types) matches Ok(t) ==> {
            &&& types.len() == 2
            &&& types[0] is Text || types[0] is Char || types[0] is Null
            &&& types[1] is Timestamp <==> t is TimestampTz
            &&& types[1] is TimestampTz <==> t is Timestamp
            &&& types[1] is TimeTz <==> t is TimeTz
            &&& types[1] is Null <==> t is Null
        },
{
}

/// Two values give the type of either where the other is null or has the same, the
/// common one of numbers, and text for two texts.
pub proof fn pairs_give_their_common_type(f: Seq<char>, a: DataTypeView, b: DataTypeView)
    ensures
        builtin::pair_type(f, a, b) matches Ok(t) ==> {
            &&& a == b ==> t == a
            &&& b is Null ==> t == a
            &&& a is Null ==> t == b
            &&& a != b && datatype::numeric(a) && datatype::numeric(b) ==> datatype::join_numeric(
                a,
                b,
            ) == Some(t)
            &&& a is Json && b is Jsonb || a is Jsonb && b is Json ==> t is Jsonb
            &&& a is Text && b is Char || a is Char && b is Text ==> t == (DataTypeView::Text {
                max_len: None,
            })
        },
        a == b || a is Null || b is Null ==> builtin::pair_type(f, a, b) is Ok,
{
}

/// Arguments that all have one type, or are null, have that type in common.
pub proof fn alike_arguments_keep_their_type(
    f: Seq<char>,
    types: Seq<DataTypeView>,
    i: int,
    acc: DataTypeView,
    t: DataTypeView,
)
    requires
        0 <= i <= types.len(),
        !(t is Null),
        acc == t || acc is Null,
        forall|k: int| i <= k < types.len() ==> #[trigger] types[k] == t || types[k] is Null,
    ensures
        builtin::common_from(f, types, i, acc) matches Ok(u) && (u == t || u is Null),
        acc == t ==> builtin::common_from(f, types, i, acc) == Ok::<
            DataTypeView,
            crate::error::PlanErrorView,
        >(t),
        (exists|k: int| i <= k < types.len() && #[trigger] types[k] == t) ==> builtin::common_from(
            f,
            types,
            i,
            acc,
        ) == Ok::<DataTypeView, crate::error::PlanErrorView>(t),
    decreases types.len() - i,
{
    if i < types.len() {
        assert(types[i] == t || types[i] is Null);
        let next = if types[i] is Null {
            acc
        } else {
            t
        };
        assert(builtin::pair_type(f, acc, types[i]) == Ok::<
            DataTypeView,
            crate::error::PlanErrorView,
        >(next));
        alike_arguments_keep_their_type(f, types, i + 1, next, t);
    }
}

/// A function that changes an array gives the array's type, and what it puts in or
/// looks for is null or of the type of the elements.
pub proof fn array_functions_keep_their_array(
    f: Seq<char>,
    types: Seq<DataTypeView>,
    at: int,
    value_at: int,
    expected: nat,
)
    ensures
        builtin::array_and_element(f, types, at, value_at, expected) matches Ok(t) ==> {
            &&& types.len() == expected && t == types[at]
            &&& t matches DataTypeView::Array(element) && (types[value_at] is Null
                || types[value_at] == *element)
        },
        builtin::replaced_array_type(f, types) matches Ok(t) ==> {
            &&& types.len() == 3 && t == types[0]
            &&& t matches DataTypeView::Array(element) && (types[1] is Null || types[1]
                == *element) && (types[2] is Null || types[2] == *element)
        },
{
}

} // verus!

//! The text of a syntax tree, by which calls that read alike are recognised: each
//! node by its name and its fields, as in `Binary { op: Add, left: .., right: .. }`.
//!
//! A text is written in front of the text that follows it.
use crate::ast::{
    BinaryOp, CteDef, Distinct, Expr, Identifier, JoinCondition, JoinOp, Literal, NullsOrder,
    ObjectName, OrderItem, SelectItem, SelectStmt, SetOp, SetOpTail, SetQuantifier, SortDirection,
    TableRef, UnaryOp, WindowSpec,
};
use crate::debug;
use crate::debug::show_quoted_char;
use crate::text;
use crate::text::{cat2, chars_of, show_u64};
use vstd::prelude::*;

verus! {

/// The characters of a quoted text from the `i`-th on, and the closing mark.
pub open spec fn quoted_from(s: Seq<char>, i: int, rest: Seq<char>) -> Seq<char>
    decreases s.len() - i,
{
    if i < 0 || i >= s.len() {
        "\""@ + rest
    } else {
        debug::quoted_char(s[i]) + quoted_from(s, i + 1, rest)
    }
}

/// A text in quotation marks, with the marks in it escaped.
pub open spec fn quoted_put(s: Seq<char>, rest: Seq<char>) -> Seq<char> {
    "\""@ + quoted_from(s, 0, rest)
}

fn put_quoted(s: &str, rest: String) -> (out: String)
    ensures
        out@ == quoted_put(s@, rest@),
{
    let chars = chars_of(s);
    let mut r = cat2("\"", rest.as_str());
    let mut i: usize = chars.len();
    while i > 0
        invariant
            i <= chars.len(),
            chars@ == s@,
            r@ == quoted_from(s@, i as int, rest@),
        decreases i,
    {
        i = i - 1;
        r = cat2(show_quoted_char(chars[i]).as_str(), r.as_str());
    }
    cat2("\"", r.as_str())
}

/// A truth value.
pub open spec fn flag_tag(b: bool) -> Seq<char> {
    if b {
        "true"@
    } else {
        "false"@
    }
}

/// The text of a truth value.
pub open spec fn flag_put(b: bool, rest: Seq<char>) -> Seq<char> {
    flag_tag(b) + rest
}

fn put_flag(b: bool, rest: String) -> (out: String)
    ensures
        out@ == flag_put(b, rest@),
{
    if b {
        cat2("true", rest.as_str())
    } else {
        cat2("false", rest.as_str())
    }
}

/// The text of a number.
pub open spec fn index_put(n: u32, rest: Seq<char>) -> Seq<char> {
    text::decimal(n as nat) + rest
}

fn put_index(n: u32, rest: String) -> (out: String)
    ensures
        out@ == index_put(n, rest@),
{
    cat2(show_u64(n as u64).as_str(), rest.as_str())
}

/// The name of an unary operator.
pub open spec fn unary_op_tag(x: UnaryOp) -> Seq<char> {
    match x {
        UnaryOp::Neg => "Neg"@,
        UnaryOp::Pos => "Pos"@,
        UnaryOp::Not => "Not"@,
        UnaryOp::BitNot => "BitNot"@,
    }
}

/// The text of an unary operator.
pub open spec fn unary_op_put(x: UnaryOp, rest: Seq<char>) -> Seq<char> {
    unary_op_tag(x) + rest
}

fn put_unary_op(x: UnaryOp, rest: String) -> (out: String)
    ensures
        out@ == unary_op_put(x, rest@),
{
    let tag = match x {
        UnaryOp::Neg => "Neg",
        UnaryOp::Pos => "Pos",
        UnaryOp::Not => "Not",
        UnaryOp::BitNot => "BitNot",
    };
    cat2(tag, rest.as_str())
}

/// The name of a binary operator.
pub open spec fn binary_op_tag(x: BinaryOp) -> Seq<char> {
    match x {
        BinaryOp::Add => "Add"@,
        BinaryOp::Sub => "Sub"@,
        BinaryOp::Mul => "Mul"@,
        BinaryOp::Div => "Div"@,
        BinaryOp::Mod => "Mod"@,
        BinaryOp::Pow => "Pow"@,
        BinaryOp::Concat => "Concat"@,
        BinaryOp::Eq => "Eq"@,
        BinaryOp::NotEq => "NotEq"@,
        BinaryOp::Lt => "Lt"@,
        BinaryOp::LtEq => "LtEq"@,
        BinaryOp::Gt => "Gt"@,
        BinaryOp::GtEq => "GtEq"@,
        BinaryOp::And => "And"@,
        BinaryOp::Or => "Or"@,
        BinaryOp::Like => "Like"@,
        BinaryOp::NotLike => "NotLike"@,
        BinaryOp::Ilike => "Ilike"@,
        BinaryOp::NotIlike => "NotIlike"@,
        BinaryOp::RegexMatch => "RegexMatch"@,
        BinaryOp::RegexIMatch => "RegexIMatch"@,
        BinaryOp::RegexNotMatch => "RegexNotMatch"@,
        BinaryOp::RegexNotIMatch => "RegexNotIMatch"@,
        BinaryOp::BitAnd => "BitAnd"@,
        BinaryOp::BitOr => "BitOr"@,
        BinaryOp::BitXor => "BitXor"@,
        BinaryOp::ShiftLeft => "ShiftLeft"@,
        BinaryOp::ShiftRight => "ShiftRight"@,
        BinaryOp::JsonGet => "JsonGet"@,
        BinaryOp::JsonGetText => "JsonGetText"@,
        BinaryOp::JsonGetPath => "JsonGetPath"@,
        BinaryOp::JsonGetPathText => "JsonGetPathText"@,
        BinaryOp::JsonContains => "JsonContains"@,
        BinaryOp::JsonContained => "JsonContained"@,
        BinaryOp::JsonHasKey => "JsonHasKey"@,
        BinaryOp::JsonHasAnyKey => "JsonHasAnyKey"@,
        BinaryOp::JsonHasAllKeys => "JsonHasAllKeys"@,
        BinaryOp::Overlap => "Overlap"@,
    }
}

/// The text of a binary operator.
pub open spec fn binary_op_put(x: BinaryOp, rest: Seq<char>) -> Seq<char> {
    binary_op_tag(x) + rest
}

fn put_binary_op(x: BinaryOp, rest: String) -> (out: String)
    ensures
        out@ == binary_op_put(x, rest@),
{
    let tag = match x {
        BinaryOp::Add => "Add",
        BinaryOp::Sub => "Sub",
        BinaryOp::Mul => "Mul",
        BinaryOp::Div => "Div",
        BinaryOp::Mod => "Mod",
        BinaryOp::Pow => "Pow",
        BinaryOp::Concat => "Concat",
        BinaryOp::Eq => "Eq",
        BinaryOp::NotEq => "NotEq",
        BinaryOp::Lt => "Lt",
        BinaryOp::LtEq => "LtEq",
        BinaryOp::Gt => "Gt",
        BinaryOp::GtEq => "GtEq",
        BinaryOp::And => "And",
        BinaryOp::Or => "Or",
        BinaryOp::Like => "Like",
        BinaryOp::NotLike => "NotLike",
        BinaryOp::Ilike => "Ilike",
        BinaryOp::NotIlike => "NotIlike",
        BinaryOp::RegexMatch => "RegexMatch",
        BinaryOp::RegexIMatch => "RegexIMatch",
        BinaryOp::RegexNotMatch => "RegexNotMatch",
        BinaryOp::RegexNotIMatch => "RegexNotIMatch",
        BinaryOp::BitAnd => "BitAnd",
        BinaryOp::BitOr => "BitOr",
        BinaryOp::BitXor => "BitXor",
        BinaryOp::ShiftLeft => "ShiftLeft",
        BinaryOp::ShiftRight => "ShiftRight",
        BinaryOp::JsonGet => "JsonGet",
        BinaryOp::JsonGetText => "JsonGetText",
        BinaryOp::JsonGetPath => "JsonGetPath",
        BinaryOp::JsonGetPathText => "JsonGetPathText",
        BinaryOp::JsonContains => "JsonContains",
        BinaryOp::JsonContained => "JsonContained",
        BinaryOp::JsonHasKey => "JsonHasKey",
        BinaryOp::JsonHasAnyKey => "JsonHasAnyKey",
        BinaryOp::JsonHasAllKeys => "JsonHasAllKeys",
        BinaryOp::Overlap => "Overlap",
    };
    cat2(tag, rest.as_str())
}

/// The name of a sort direction.
pub open spec fn sort_direction_tag(x: SortDirection) -> Seq<char> {
    match x {
        SortDirection::Asc => "Asc"@,
        SortDirection::Desc => "Desc"@,
    }
}

/// The text of a sort direction.
pub open spec fn sort_direction_put(x: SortDirection, rest: Seq<char>) -> Seq<char> {
    sort_direction_tag(x) + rest
}

fn put_sort_direction(x: SortDirection, rest: String) -> (out: String)
    ensures
        out@ == sort_direction_put(x, rest@),
{
    let tag = match x {
        SortDirection::Asc => "Asc",
        SortDirection::Desc => "Desc",
    };
    cat2(tag, rest.as_str())
}

/// The name of an order of nulls.
pub open spec fn nulls_order_tag(x: NullsOrder) -> Seq<char> {
    match x {
        NullsOrder::First => "First"@,
        NullsOrder::Last => "Last"@,
        NullsOrder::Default => "Default"@,
    }
}

/// The text of an order of nulls.
pub open spec fn nulls_order_put(x: NullsOrder, rest: Seq<char>) -> Seq<char> {
    nulls_order_tag(x) + rest
}

fn put_nulls_order(x: NullsOrder, rest: String) -> (out: String)
    ensures
        out@ == nulls_order_put(x, rest@),
{
    let tag = match x {
        NullsOrder::First => "First",
        NullsOrder::Last => "Last",
        NullsOrder::Default => "Default",
    };
    cat2(tag, rest.as_str())
}

/// The name of a join operator.
pub open spec fn join_op_tag(x: JoinOp) -> Seq<char> {
    match x {
        JoinOp::Inner => "Inner"@,
        JoinOp::LeftOuter => "LeftOuter"@,
        JoinOp::RightOuter => "RightOuter"@,
        JoinOp::FullOuter => "FullOuter"@,
        JoinOp::Cross => "Cross"@,
    }
}

/// The text of a join operator.
pub open spec fn join_op_put(x: JoinOp, rest: Seq<char>) -> Seq<char> {
    join_op_tag(x) + rest
}

fn put_join_op(x: JoinOp, rest: String) -> (out: String)
    ensures
        out@ == join_op_put(x, rest@),
{
    let tag = match x {
        JoinOp::Inner => "Inner",
        JoinOp::LeftOuter => "LeftOuter",
        JoinOp::RightOuter => "RightOuter",
        JoinOp::FullOuter => "FullOuter",
        JoinOp::Cross => "Cross",
    };
    cat2(tag, rest.as_str())
}

/// The name of a set operator.
pub open spec fn set_op_tag(x: SetOp) -> Seq<char> {
    match x {
        SetOp::Union => "Union"@,
        SetOp::Intersect => "Intersect"@,
        SetOp::Except => "Except"@,
    }
}

/// The text of a set operator.
pub open spec fn set_op_put(x: SetOp, rest: Seq<char>) -> Seq<char> {
    set_op_tag(x) + rest
}

fn put_set_op(x: SetOp, rest: String) -> (out: String)
    ensures
        out@ == set_op_put(x, rest@),
{
    let tag = match x {
        SetOp::Union => "Union",
        SetOp::Intersect => "Intersect",
        SetOp::Except => "Except",
    };
    cat2(tag, rest.as_str())
}

/// The name of a set quantifier.
pub open spec fn set_quantifier_tag(x: SetQuantifier) -> Seq<char> {
    match x {
        SetQuantifier::All => "All"@,
        SetQuantifier::Distinct => "Distinct"@,
    }
}

/// The text of a set quantifier.
pub open spec fn set_quantifier_put(x: SetQuantifier, rest: Seq<char>) -> Seq<char> {
    set_quantifier_tag(x) + rest
}

fn put_set_quantifier(x: SetQuantifier, rest: String) -> (out: String)
    ensures
        out@ == set_quantifier_put(x, rest@),
{
    let tag = match x {
        SetQuantifier::All => "All",
        SetQuantifier::Distinct => "Distinct",
    };
    cat2(tag, rest.as_str())
}

/// The text of a name.
pub open spec fn identifier_put(x: Identifier, rest: Seq<char>) -> Seq<char> {
    "Identifier"@ + (" { value: "@ + quoted_put(x.value@, " }"@ + rest))
}

fn put_identifier(x: &Identifier, rest: String) -> (out: String)
    ensures
        out@ == identifier_put(*x, rest@),
{
    let r = cat2(" }", rest.as_str());
    let r = put_quoted(x.value.as_str(), r);
    let r = cat2(" { value: ", r.as_str());
    cat2("Identifier", r.as_str())
}

/// The text of a qualified name.
pub open spec fn object_name_put(x: ObjectName, rest: Seq<char>) -> Seq<char> {
    "ObjectName"@ + (" { parts: "@ + identifier_list_put(x.parts@, " }"@ + rest))
}

fn put_object_name(x: &ObjectName, rest: String) -> (out: String)
    ensures
        out@ == object_name_put(*x, rest@),
{
    let r = cat2(" }", rest.as_str());
    let r = put_identifier_list(&x.parts, r);
    let r = cat2(" { parts: ", r.as_str());
    cat2("ObjectName", r.as_str())
}

/// The text of a sort key.
pub open spec fn order_item_put(x: OrderItem, rest: Seq<char>) -> Seq<char>
    decreases x, 0int,
{
    "OrderItem"@ + (
        " { expr: "@ + expr_put(
            x.expr,
            ", direction: "@ + sort_direction_put(
                x.direction,
                ", nulls: "@ + nulls_order_put(x.nulls, " }"@ + rest),
            ),
        )
    )
}

fn put_order_item(x: &OrderItem, rest: String) -> (out: String)
    ensures
        out@ == order_item_put(*x, rest@),
    decreases x, 0int,
{
    let r = cat2(" }", rest.as_str());
    let r = put_nulls_order(x.nulls, r);
    let r = cat2(", nulls: ", r.as_str());
    let r = put_sort_direction(x.direction, r);
    let r = cat2(", direction: ", r.as_str());
    let r = put_expr(&x.expr, r);
    let r = cat2(" { expr: ", r.as_str());
    cat2("OrderItem", r.as_str())
}

/// The text of a window.
pub open spec fn window_spec_put(x: WindowSpec, rest: Seq<char>) -> Seq<char>
    decreases x, 0int,
{
    "WindowSpec"@ + (
        " { partition_by: "@ + expr_list_put(
            x.partition_by@,
            ", order_by: "@ + order_item_list_put(x.order_by@, " }"@ + rest),
        )
    )
}

fn put_window_spec(x: &WindowSpec, rest: String) -> (out: String)
    ensures
        out@ == window_spec_put(*x, rest@),
    decreases x, 0int,
{
    let r = cat2(" }", rest.as_str());
    let r = put_order_item_list(&x.order_by, r);
    let r = cat2(", order_by: ", r.as_str());
    let r = put_expr_list(&x.partition_by, r);
    let r = cat2(" { partition_by: ", r.as_str());
    cat2("WindowSpec", r.as_str())
}

/// The text of a common table expression.
pub open spec fn cte_def_put(x: CteDef, rest: Seq<char>) -> Seq<char>
    decreases x, 0int,
{
    "CteDef"@ + (
        " { name: "@ + identifier_put(
            x.name,
            ", column_aliases: "@ + identifier_list_put(
                x.column_aliases@,
                ", recursive: "@ + flag_put(
                    x.recursive,
                    ", query: "@ + select_stmt_put(*x.query, " }"@ + rest),
                ),
            ),
        )
    )
}

fn put_cte_def(x: &CteDef, rest: String) -> (out: String)
    ensures
        out@ == cte_def_put(*x, rest@),
    decreases x, 0int,
{
    let r = cat2(" }", rest.as_str());
    let r = put_select_stmt(&x.query, r);
    let r = cat2(", query: ", r.as_str());
    let r = put_flag(x.recursive, r);
    let r = cat2(", recursive: ", r.as_str());
    let r = put_identifier_list(&x.column_aliases, r);
    let r = cat2(", column_aliases: ", r.as_str());
    let r = put_identifier(&x.name, r);
    let r = cat2(" { name: ", r.as_str());
    cat2("CteDef", r.as_str())
}

/// The text of a set operation.
pub open spec fn set_op_tail_put(x: SetOpTail, rest: Seq<char>) -> Seq<char>
    decreases x, 0int,
{
    "SetOpTail"@ + (
        " { op: "@ + set_op_put(
            x.op,
            ", quantifier: "@ + set_quantifier_put(
                x.quantifier,
                ", right: "@ + select_stmt_put(*x.right, " }"@ + rest),
            ),
        )
    )
}

fn put_set_op_tail(x: &SetOpTail, rest: String) -> (out: String)
    ensures
        out@ == set_op_tail_put(*x, rest@),
    decreases x, 0int,
{
    let r = cat2(" }", rest.as_str());
    let r = put_select_stmt(&x.right, r);
    let r = cat2(", right: ", r.as_str());
    let r = put_set_quantifier(x.quantifier, r);
    let r = cat2(", quantifier: ", r.as_str());
    let r = put_set_op(x.op, r);
    let r = cat2(" { op: ", r.as_str());
    cat2("SetOpTail", r.as_str())
}

/// The text of a `SELECT` statement.
pub open spec fn select_stmt_put(x: SelectStmt, rest: Seq<char>) -> Seq<char>
    decreases x, 0int,
{
    "SelectStmt"@ + (
        " { ctes: "@ + cte_def_list_put(
            x.ctes@,
            ", distinct: "@ + distinct_put(
                x.distinct,
                ", projection: "@ + select_item_list_put(
                    x.projection@,
                    ", from: "@ + table_ref_list_put(
                        x.from@,
                        ", where_clause: "@ + optional_expr_put(
                            x.where_clause,
                            ", group_by: "@ + expr_list_put(
                                x.group_by@,
                                ", having: "@ + optional_expr_put(
                                    x.having,
                                    ", set_ops: "@ + set_op_tail_list_put(
                                        x.set_ops@,
                                        ", order_by: "@ + order_item_list_put(
                                            x.order_by@,
                                            ", limit: "@ + optional_expr_put(
                                                x.limit,
                                                ", offset: "@ + optional_expr_put(
                                                    x.offset,
                                                    " }"@ + rest,
                                                ),
                                            ),
                                        ),
                                    ),
                                ),
                            ),
                        ),
                    ),
                ),
            ),
        )
    )
}

fn put_select_stmt(x: &SelectStmt, rest: String) -> (out: String)
    ensures
        out@ == select_stmt_put(*x, rest@),
    decreases x, 0int,
{
    let r = cat2(" }", rest.as_str());
    let r = put_optional_expr(&x.offset, r);
    let r = cat2(", offset: ", r.as_str());
    let r = put_optional_expr(&x.limit, r);
    let r = cat2(", limit: ", r.as_str());
    let r = put_order_item_list(&x.order_by, r);
    let r = cat2(", order_by: ", r.as_str());
    let r = put_set_op_tail_list(&x.set_ops, r);
    let r = cat2(", set_ops: ", r.as_str());
    let r = put_optional_expr(&x.having, r);
    let r = cat2(", having: ", r.as_str());
    let r = put_expr_list(&x.group_by, r);
    let r = cat2(", group_by: ", r.as_str());
    let r = put_optional_expr(&x.where_clause, r);
    let r = cat2(", where_clause: ", r.as_str());
    let r = put_table_ref_list(&x.from, r);
    let r = cat2(", from: ", r.as_str());
    let r = put_select_item_list(&x.projection, r);
    let r = cat2(", projection: ", r.as_str());
    let r = put_distinct(&x.distinct, r);
    let r = cat2(", distinct: ", r.as_str());
    let r = put_cte_def_list(&x.ctes, r);
    let r = cat2(" { ctes: ", r.as_str());
    cat2("SelectStmt", r.as_str())
}

/// The name of a literal.
pub open spec fn literal_tag(x: Literal) -> Seq<char> {
    match x {
        Literal::Null => "Null"@,
        Literal::Bool { .. } => "Bool"@,
        Literal::Integer { .. } => "Integer"@,
        Literal::Float { .. } => "Float"@,
        Literal::Text { .. } => "Text"@,
        Literal::Typed { .. } => "Typed"@,
    }
}

/// The text of a literal.
pub open spec fn literal_put(x: Literal, rest: Seq<char>) -> Seq<char> {
    literal_tag(x) + (match x {
        Literal::Null => rest,
        Literal::Bool { value } => " { value: "@ + flag_put(value, " }"@ + rest),
        Literal::Integer { text } => " { text: "@ + quoted_put(text@, " }"@ + rest),
        Literal::Float { text, .. } => " { text: "@ + quoted_put(text@, " }"@ + rest),
        Literal::Text { value } => " { value: "@ + quoted_put(value@, " }"@ + rest),
        Literal::Typed { ty, value, unit } => {
            " { ty: "@ + quoted_put(
                ty@,
                ", value: "@ + quoted_put(
                    value@,
                    ", unit: "@ + optional_quoted_put(unit, " }"@ + rest),
                ),
            )
        },
    })
}

fn put_literal(x: &Literal, rest: String) -> (out: String)
    ensures
        out@ == literal_put(*x, rest@),
{
    match x {
        Literal::Null => cat2("Null", rest.as_str()),
        Literal::Bool { value } => {
            let r = cat2(" }", rest.as_str());
            let r = put_flag(*value, r);
            let r = cat2(" { value: ", r.as_str());
            cat2("Bool", r.as_str())
        },
        Literal::Integer { text } => {
            let r = cat2(" }", rest.as_str());
            let r = put_quoted(text.as_str(), r);
            let r = cat2(" { text: ", r.as_str());
            cat2("Integer", r.as_str())
        },
        Literal::Float { text, .. } => {
            let r = cat2(" }", rest.as_str());
            let r = put_quoted(text.as_str(), r);
            let r = cat2(" { text: ", r.as_str());
            cat2("Float", r.as_str())
        },
        Literal::Text { value } => {
            let r = cat2(" }", rest.as_str());
            let r = put_quoted(value.as_str(), r);
            let r = cat2(" { value: ", r.as_str());
            cat2("Text", r.as_str())
        },
        Literal::Typed { ty, value, unit } => {
            let r = cat2(" }", rest.as_str());
            let r = put_optional_quoted(unit, r);
            let r = cat2(", unit: ", r.as_str());
            let r = put_quoted(value.as_str(), r);
            let r = cat2(", value: ", r.as_str());
            let r = put_quoted(ty.as_str(), r);
            let r = cat2(" { ty: ", r.as_str());
            cat2("Typed", r.as_str())
        },
    }
}

/// The name of an expression.
pub open spec fn expr_tag(x: Expr) -> Seq<char> {
    match x {
        Expr::Literal(_) => "Literal"@,
        Expr::Column { .. } => "Column"@,
        Expr::Parameter { .. } => "Parameter"@,
        Expr::Paren { .. } => "Paren"@,
        Expr::Unary { .. } => "Unary"@,
        Expr::Binary { .. } => "Binary"@,
        Expr::IsNull { .. } => "IsNull"@,
        Expr::Call { .. } => "Call"@,
        Expr::Cast { .. } => "Cast"@,
        Expr::PostfixCast { .. } => "PostfixCast"@,
        Expr::Subquery { .. } => "Subquery"@,
        Expr::Exists { .. } => "Exists"@,
        Expr::InSubquery { .. } => "InSubquery"@,
        Expr::Any { .. } => "Any"@,
        Expr::AnyArray { .. } => "AnyArray"@,
        Expr::All { .. } => "All"@,
        Expr::Between { .. } => "Between"@,
        Expr::InList { .. } => "InList"@,
        Expr::Case { .. } => "Case"@,
        Expr::Coalesce { .. } => "Coalesce"@,
        Expr::NullIf { .. } => "NullIf"@,
        Expr::Greatest { .. } => "Greatest"@,
        Expr::Least { .. } => "Least"@,
        Expr::IsBoolean { .. } => "IsBoolean"@,
        Expr::IsDistinctFrom { .. } => "IsDistinctFrom"@,
        Expr::Row { .. } => "Row"@,
        Expr::ArrayLiteral { .. } => "ArrayLiteral"@,
        Expr::ArraySubscript { .. } => "ArraySubscript"@,
        Expr::ArraySlice { .. } => "ArraySlice"@,
        Expr::Collate { .. } => "Collate"@,
        Expr::AtTimeZone { .. } => "AtTimeZone"@,
        Expr::Default => "Default"@,
    }
}

/// The text of an expression.
pub open spec fn expr_put(x: Expr, rest: Seq<char>) -> Seq<char>
    decreases x, 0int,
{
    expr_tag(x) + (match x {
        Expr::Literal(x0) => "("@ + literal_put(x0, ")"@ + rest),
        Expr::Column { name } => " { name: "@ + object_name_put(name, " }"@ + rest),
        Expr::Parameter { index } => " { index: "@ + index_put(index, " }"@ + rest),
        Expr::Paren { expr } => " { expr: "@ + expr_put(*expr, " }"@ + rest),
        Expr::Unary { op, expr } => {
            " { op: "@ + unary_op_put(op, ", expr: "@ + expr_put(*expr, " }"@ + rest))
        },
        Expr::Binary { op, left, right } => {
            " { op: "@ + binary_op_put(
                op,
                ", left: "@ + expr_put(*left, ", right: "@ + expr_put(*right, " }"@ + rest)),
            )
        },
        Expr::IsNull { expr, negated } => {
            " { expr: "@ + expr_put(*expr, ", negated: "@ + flag_put(negated, " }"@ + rest))
        },
        Expr::Call { name, args, distinct, within_group, over } => {
            " { name: "@ + object_name_put(
                name,
                ", args: "@ + expr_list_put(
                    args@,
                    ", distinct: "@ + flag_put(
                        distinct,
                        ", within_group: "@ + optional_order_item_list_put(
                            within_group,
                            ", over: "@ + optional_window_spec_put(over, " }"@ + rest),
                        ),
                    ),
                ),
            )
        },
        Expr::Cast { expr, target } => {
            " { expr: "@ + expr_put(*expr, ", target: "@ + identifier_put(target, " }"@ + rest))
        },
        Expr::PostfixCast { expr, target } => {
            " { expr: "@ + expr_put(*expr, ", target: "@ + identifier_put(target, " }"@ + rest))
        },
        Expr::Subquery { select } => " { select: "@ + select_stmt_put(*select, " }"@ + rest),
        Expr::Exists { select, negated } => {
            " { select: "@ + select_stmt_put(
                *select,
                ", negated: "@ + flag_put(negated, " }"@ + rest),
            )
        },
        Expr::InSubquery { expr, select, negated } => {
            " { expr: "@ + expr_put(
                *expr,
                ", select: "@ + select_stmt_put(
                    *select,
                    ", negated: "@ + flag_put(negated, " }"@ + rest),
                ),
            )
        },
        Expr::Any { expr, op, select } => {
            " { expr: "@ + expr_put(
                *expr,
                ", op: "@ + binary_op_put(
                    op,
                    ", select: "@ + select_stmt_put(*select, " }"@ + rest),
                ),
            )
        },
        Expr::AnyArray { expr, op, array } => {
            " { expr: "@ + expr_put(
                *expr,
                ", op: "@ + binary_op_put(op, ", array: "@ + expr_put(*array, " }"@ + rest)),
            )
        },
        Expr::All { expr, op, select } => {
            " { expr: "@ + expr_put(
                *expr,
                ", op: "@ + binary_op_put(
                    op,
                    ", select: "@ + select_stmt_put(*select, " }"@ + rest),
                ),
            )
        },
        Expr::Between { expr, low, high, negated, symmetric } => {
            " { expr: "@ + expr_put(
                *expr,
                ", low: "@ + expr_put(
                    *low,
                    ", high: "@ + expr_put(
                        *high,
                        ", negated: "@ + flag_put(
                            negated,
                            ", symmetric: "@ + flag_put(symmetric, " }"@ + rest),
                        ),
                    ),
                ),
            )
        },
        Expr::InList { expr, items, negated } => {
            " { expr: "@ + expr_put(
                *expr,
                ", items: "@ + expr_list_put(
                    items@,
                    ", negated: "@ + flag_put(negated, " }"@ + rest),
                ),
            )
        },
        Expr::Case { operand, branches, else_expr } => {
            " { operand: "@ + optional_boxed_expr_put(
                operand,
                ", branches: "@ + branch_list_put(
                    branches@,
                    ", else_expr: "@ + optional_boxed_expr_put(else_expr, " }"@ + rest),
                ),
            )
        },
        Expr::Coalesce { args } => " { args: "@ + expr_list_put(args@, " }"@ + rest),
        Expr::NullIf { a, b } => " { a: "@ + expr_put(*a, ", b: "@ + expr_put(*b, " }"@ + rest)),
        Expr::Greatest { args } => " { args: "@ + expr_list_put(args@, " }"@ + rest),
        Expr::Least { args } => " { args: "@ + expr_list_put(args@, " }"@ + rest),
        Expr::IsBoolean { expr, value, is_unknown, negated } => {
            " { expr: "@ + expr_put(
                *expr,
                ", value: "@ + flag_put(
                    value,
                    ", is_unknown: "@ + flag_put(
                        is_unknown,
                        ", negated: "@ + flag_put(negated, " }"@ + rest),
                    ),
                ),
            )
        },
        Expr::IsDistinctFrom { left, right, negated } => {
            " { left: "@ + expr_put(
                *left,
                ", right: "@ + expr_put(*right, ", negated: "@ + flag_put(negated, " }"@ + rest)),
            )
        },
        Expr::Row { fields } => " { fields: "@ + expr_list_put(fields@, " }"@ + rest),
        Expr::ArrayLiteral { elements } => {
            " { elements: "@ + expr_list_put(elements@, " }"@ + rest)
        },
        Expr::ArraySubscript { expr, index } => {
            " { expr: "@ + expr_put(*expr, ", index: "@ + expr_put(*index, " }"@ + rest))
        },
        Expr::ArraySlice { expr, lower, upper } => {
            " { expr: "@ + expr_put(
                *expr,
                ", lower: "@ + optional_boxed_expr_put(
                    lower,
                    ", upper: "@ + optional_boxed_expr_put(upper, " }"@ + rest),
                ),
            )
        },
        Expr::Collate { expr, collation } => {
            " { expr: "@ + expr_put(
                *expr,
                ", collation: "@ + object_name_put(collation, " }"@ + rest),
            )
        },
        Expr::AtTimeZone { expr, zone } => {
            " { expr: "@ + expr_put(*expr, ", zone: "@ + expr_put(*zone, " }"@ + rest))
        },
        Expr::Default => rest,
    })
}

fn put_expr(x: &Expr, rest: String) -> (out: String)
    ensures
        out@ == expr_put(*x, rest@),
    decreases x, 0int,
{
    match x {
        Expr::Literal(x0) => {
            let r = cat2(")", rest.as_str());
            let r = put_literal(x0, r);
            let r = cat2("(", r.as_str());
            cat2("Literal", r.as_str())
        },
        Expr::Column { name } => {
            let r = cat2(" }", rest.as_str());
            let r = put_object_name(name, r);
            let r = cat2(" { name: ", r.as_str());
            cat2("Column", r.as_str())
        },
        Expr::Parameter { index } => {
            let r = cat2(" }", rest.as_str());
            let r = put_index(*index, r);
            let r = cat2(" { index: ", r.as_str());
            cat2("Parameter", r.as_str())
        },
        Expr::Paren { expr } => {
            let r = cat2(" }", rest.as_str());
            let r = put_expr(expr, r);
            let r = cat2(" { expr: ", r.as_str());
            cat2("Paren", r.as_str())
        },
        Expr::Unary { op, expr } => {
            let r = cat2(" }", rest.as_str());
            let r = put_expr(expr, r);
            let r = cat2(", expr: ", r.as_str());
            let r = put_unary_op(*op, r);
            let r = cat2(" { op: ", r.as_str());
            cat2("Unary", r.as_str())
        },
        Expr::Binary { op, left, right } => {
            let r = cat2(" }", rest.as_str());
            let r = put_expr(right, r);
            let r = cat2(", right: ", r.as_str());
            let r = put_expr(left, r);
            let r = cat2(", left: ", r.as_str());
            let r = put_binary_op(*op, r);
            let r = cat2(" { op: ", r.as_str());
            cat2("Binary", r.as_str())
        },
        Expr::IsNull { expr, negated } => {
            let r = cat2(" }", rest.as_str());
            let r = put_flag(*negated, r);
            let r = cat2(", negated: ", r.as_str());
            let r = put_expr(expr, r);
            let r = cat2(" { expr: ", r.as_str());
            cat2("IsNull", r.as_str())
        },
        Expr::Call { name, args, distinct, within_group, over } => {
            let r = cat2(" }", rest.as_str());
            let r = put_optional_window_spec(over, r);
            let r = cat2(", over: ", r.as_str());
            let r = put_optional_order_item_list(within_group, r);
            let r = cat2(", within_group: ", r.as_str());
            let r = put_flag(*distinct, r);
            let r = cat2(", distinct: ", r.as_str());
            let r = put_expr_list(args, r);
            let r = cat2(", args: ", r.as_str());
            let r = put_object_name(name, r);
            let r = cat2(" { name: ", r.as_str());
            cat2("Call", r.as_str())
        },
        Expr::Cast { expr, target } => {
            let r = cat2(" }", rest.as_str());
            let r = put_identifier(target, r);
            let r = cat2(", target: ", r.as_str());
            let r = put_expr(expr, r);
            let r = cat2(" { expr: ", r.as_str());
            cat2("Cast", r.as_str())
        },
        Expr::PostfixCast { expr, target } => {
            let r = cat2(" }", rest.as_str());
            let r = put_identifier(target, r);
            let r = cat2(", target: ", r.as_str());
            let r = put_expr(expr, r);
            let r = cat2(" { expr: ", r.as_str());
            cat2("PostfixCast", r.as_str())
        },
        Expr::Subquery { select } => {
            let r = cat2(" }", rest.as_str());
            let r = put_select_stmt(select, r);
            let r = cat2(" { select: ", r.as_str());
            cat2("Subquery", r.as_str())
        },
        Expr::Exists { select, negated } => {
            let r = cat2(" }", rest.as_str());
            let r = put_flag(*negated, r);
            let r = cat2(", negated: ", r.as_str());
            let r = put_select_stmt(select, r);
            let r = cat2(" { select: ", r.as_str());
            cat2("Exists", r.as_str())
        },
        Expr::InSubquery { expr, select, negated } => {
            let r = cat2(" }", rest.as_str());
            let r = put_flag(*negated, r);
            let r = cat2(", negated: ", r.as_str());
            let r = put_select_stmt(select, r);
            let r = cat2(", select: ", r.as_str());
            let r = put_expr(expr, r);
            let r = cat2(" { expr: ", r.as_str());
            cat2("InSubquery", r.as_str())
        },
        Expr::Any { expr, op, select } => {
            let r = cat2(" }", rest.as_str());
            let r = put_select_stmt(select, r);
            let r = cat2(", select: ", r.as_str());
            let r = put_binary_op(*op, r);
            let r = cat2(", op: ", r.as_str());
            let r = put_expr(expr, r);
            let r = cat2(" { expr: ", r.as_str());
            cat2("Any", r.as_str())
        },
        Expr::AnyArray { expr, op, array } => {
            let r = cat2(" }", rest.as_str());
            let r = put_expr(array, r);
            let r = cat2(", array: ", r.as_str());
            let r = put_binary_op(*op, r);
            let r = cat2(", op: ", r.as_str());
            let r = put_expr(expr, r);
            let r = cat2(" { expr: ", r.as_str());
            cat2("AnyArray", r.as_str())
        },
        Expr::All { expr, op, select } => {
            let r = cat2(" }", rest.as_str());
            let r = put_select_stmt(select, r);
            let r = cat2(", select: ", r.as_str());
            let r = put_binary_op(*op, r);
            let r = cat2(", op: ", r.as_str());
            let r = put_expr(expr, r);
            let r = cat2(" { expr: ", r.as_str());
            cat2("All", r.as_str())
        },
        Expr::Between { expr, low, high, negated, symmetric } => {
            let r = cat2(" }", rest.as_str());
            let r = put_flag(*symmetric, r);
            let r = cat2(", symmetric: ", r.as_str());
            let r = put_flag(*negated, r);
            let r = cat2(", negated: ", r.as_str());
            let r = put_expr(high, r);
            let r = cat2(", high: ", r.as_str());
            let r = put_expr(low, r);
            let r = cat2(", low: ", r.as_str());
            let r = put_expr(expr, r);
            let r = cat2(" { expr: ", r.as_str());
            cat2("Between", r.as_str())
        },
        Expr::InList { expr, items, negated } => {
            let r = cat2(" }", rest.as_str());
            let r = put_flag(*negated, r);
            let r = cat2(", negated: ", r.as_str());
            let r = put_expr_list(items, r);
            let r = cat2(", items: ", r.as_str());
            let r = put_expr(expr, r);
            let r = cat2(" { expr: ", r.as_str());
            cat2("InList", r.as_str())
        },
        Expr::Case { operand, branches, else_expr } => {
            let r = cat2(" }", rest.as_str());
            let r = put_optional_boxed_expr(else_expr, r);
            let r = cat2(", else_expr: ", r.as_str());
            let r = put_branch_list(branches, r);
            let r = cat2(", branches: ", r.as_str());
            let r = put_optional_boxed_expr(operand, r);
            let r = cat2(" { operand: ", r.as_str());
            cat2("Case", r.as_str())
        },
        Expr::Coalesce { args } => {
            let r = cat2(" }", rest.as_str());
            let r = put_expr_list(args, r);
            let r = cat2(" { args: ", r.as_str());
            cat2("Coalesce", r.as_str())
        },
        Expr::NullIf { a, b } => {
            let r = cat2(" }", rest.as_str());
            let r = put_expr(b, r);
            let r = cat2(", b: ", r.as_str());
            let r = put_expr(a, r);
            let r = cat2(" { a: ", r.as_str());
            cat2("NullIf", r.as_str())
        },
        Expr::Greatest { args } => {
            let r = cat2(" }", rest.as_str());
            let r = put_expr_list(args, r);
            let r = cat2(" { args: ", r.as_str());
            cat2("Greatest", r.as_str())
        },
        Expr::Least { args } => {
            let r = cat2(" }", rest.as_str());
            let r = put_expr_list(args, r);
            let r = cat2(" { args: ", r.as_str());
            cat2("Least", r.as_str())
        },
        Expr::IsBoolean { expr, value, is_unknown, negated } => {
            let r = cat2(" }", rest.as_str());
            let r = put_flag(*negated, r);
            let r = cat2(", negated: ", r.as_str());
            let r = put_flag(*is_unknown, r);
            let r = cat2(", is_unknown: ", r.as_str());
            let r = put_flag(*value, r);
            let r = cat2(", value: ", r.as_str());
            let r = put_expr(expr, r);
            let r = cat2(" { expr: ", r.as_str());
            cat2("IsBoolean", r.as_str())
        },
        Expr::IsDistinctFrom { left, right, negated } => {
            let r = cat2(" }", rest.as_str());
            let r = put_flag(*negated, r);
            let r = cat2(", negated: ", r.as_str());
            let r = put_expr(right, r);
            let r = cat2(", right: ", r.as_str());
            let r = put_expr(left, r);
            let r = cat2(" { left: ", r.as_str());
            cat2("IsDistinctFrom", r.as_str())
        },
        Expr::Row { fields } => {
            let r = cat2(" }", rest.as_str());
            let r = put_expr_list(fields, r);
            let r = cat2(" { fields: ", r.as_str());
            cat2("Row", r.as_str())
        },
        Expr::ArrayLiteral { elements } => {
            let r = cat2(" }", rest.as_str());
            let r = put_expr_list(elements, r);
            let r = cat2(" { elements: ", r.as_str());
            cat2("ArrayLiteral", r.as_str())
        },
        Expr::ArraySubscript { expr, index } => {
            let r = cat2(" }", rest.as_str());
            let r = put_expr(index, r);
            let r = cat2(", index: ", r.as_str());
            let r = put_expr(expr, r);
            let r = cat2(" { expr: ", r.as_str());
            cat2("ArraySubscript", r.as_str())
        },
        Expr::ArraySlice { expr, lower, upper } => {
            let r = cat2(" }", rest.as_str());
            let r = put_optional_boxed_expr(upper, r);
            let r = cat2(", upper: ", r.as_str());
            let r = put_optional_boxed_expr(lower, r);
            let r = cat2(", lower: ", r.as_str());
            let r = put_expr(expr, r);
            let r = cat2(" { expr: ", r.as_str());
            cat2("ArraySlice", r.as_str())
        },
        Expr::Collate { expr, collation } => {
            let r = cat2(" }", rest.as_str());
            let r = put_object_name(collation, r);
            let r = cat2(", collation: ", r.as_str());
            let r = put_expr(expr, r);
            let r = cat2(" { expr: ", r.as_str());
            cat2("Collate", r.as_str())
        },
        Expr::AtTimeZone { expr, zone } => {
            let r = cat2(" }", rest.as_str());
            let r = put_expr(zone, r);
            let r = cat2(", zone: ", r.as_str());
            let r = put_expr(expr, r);
            let r = cat2(" { expr: ", r.as_str());
            cat2("AtTimeZone", r.as_str())
        },
        Expr::Default => cat2("Default", rest.as_str()),
    }
}

/// The name of an item of a projection.
pub open spec fn select_item_tag(x: SelectItem) -> Seq<char> {
    match x {
        SelectItem::Wildcard => "Wildcard"@,
        SelectItem::QualifiedWildcard { .. } => "QualifiedWildcard"@,
        SelectItem::Expr { .. } => "Expr"@,
    }
}

/// The text of an item of a projection.
pub open spec fn select_item_put(x: SelectItem, rest: Seq<char>) -> Seq<char>
    decreases x, 0int,
{
    select_item_tag(x) + (match x {
        SelectItem::Wildcard => rest,
        SelectItem::QualifiedWildcard { qualifier } => {
            " { qualifier: "@ + identifier_put(qualifier, " }"@ + rest)
        },
        SelectItem::Expr { expr, alias } => {
            " { expr: "@ + expr_put(
                expr,
                ", alias: "@ + optional_identifier_put(alias, " }"@ + rest),
            )
        },
    })
}

fn put_select_item(x: &SelectItem, rest: String) -> (out: String)
    ensures
        out@ == select_item_put(*x, rest@),
    decreases x, 0int,
{
    match x {
        SelectItem::Wildcard => cat2("Wildcard", rest.as_str()),
        SelectItem::QualifiedWildcard { qualifier } => {
            let r = cat2(" }", rest.as_str());
            let r = put_identifier(qualifier, r);
            let r = cat2(" { qualifier: ", r.as_str());
            cat2("QualifiedWildcard", r.as_str())
        },
        SelectItem::Expr { expr, alias } => {
            let r = cat2(" }", rest.as_str());
            let r = put_optional_identifier(alias, r);
            let r = cat2(", alias: ", r.as_str());
            let r = put_expr(expr, r);
            let r = cat2(" { expr: ", r.as_str());
            cat2("Expr", r.as_str())
        },
    }
}

/// The name of a `DISTINCT` clause.
pub open spec fn distinct_tag(x: Distinct) -> Seq<char> {
    match x {
        Distinct::Absent => "Absent"@,
        Distinct::All => "All"@,
        Distinct::Distinct => "Distinct"@,
        Distinct::On(_) => "On"@,
    }
}

/// The text of a `DISTINCT` clause.
pub open spec fn distinct_put(x: Distinct, rest: Seq<char>) -> Seq<char>
    decreases x, 0int,
{
    distinct_tag(x) + (match x {
        Distinct::Absent => rest,
        Distinct::All => rest,
        Distinct::Distinct => rest,
        Distinct::On(x0) => "("@ + expr_list_put(x0@, ")"@ + rest),
    })
}

fn put_distinct(x: &Distinct, rest: String) -> (out: String)
    ensures
        out@ == distinct_put(*x, rest@),
    decreases x, 0int,
{
    match x {
        Distinct::Absent => cat2("Absent", rest.as_str()),
        Distinct::All => cat2("All", rest.as_str()),
        Distinct::Distinct => cat2("Distinct", rest.as_str()),
        Distinct::On(x0) => {
            let r = cat2(")", rest.as_str());
            let r = put_expr_list(x0, r);
            let r = cat2("(", r.as_str());
            cat2("On", r.as_str())
        },
    }
}

/// The name of a join condition.
pub open spec fn join_condition_tag(x: JoinCondition) -> Seq<char> {
    match x {
        JoinCondition::Absent => "Absent"@,
        JoinCondition::On(_) => "On"@,
        JoinCondition::Using(_) => "Using"@,
    }
}

/// The text of a join condition.
pub open spec fn join_condition_put(x: JoinCondition, rest: Seq<char>) -> Seq<char>
    decreases x, 0int,
{
    join_condition_tag(x) + (match x {
        JoinCondition::Absent => rest,
        JoinCondition::On(x0) => "("@ + expr_put(x0, ")"@ + rest),
        JoinCondition::Using(x0) => "("@ + identifier_list_put(x0@, ")"@ + rest),
    })
}

fn put_join_condition(x: &JoinCondition, rest: String) -> (out: String)
    ensures
        out@ == join_condition_put(*x, rest@),
    decreases x, 0int,
{
    match x {
        JoinCondition::Absent => cat2("Absent", rest.as_str()),
        JoinCondition::On(x0) => {
            let r = cat2(")", rest.as_str());
            let r = put_expr(x0, r);
            let r = cat2("(", r.as_str());
            cat2("On", r.as_str())
        },
        JoinCondition::Using(x0) => {
            let r = cat2(")", rest.as_str());
            let r = put_identifier_list(x0, r);
            let r = cat2("(", r.as_str());
            cat2("Using", r.as_str())
        },
    }
}

/// The name of an item of a `FROM` list.
pub open spec fn table_ref_tag(x: TableRef) -> Seq<char> {
    match x {
        TableRef::Named { .. } => "Named"@,
        TableRef::Subquery { .. } => "Subquery"@,
        TableRef::Join { .. } => "Join"@,
    }
}

/// The text of an item of a `FROM` list.
pub open spec fn table_ref_put(x: TableRef, rest: Seq<char>) -> Seq<char>
    decreases x, 0int,
{
    table_ref_tag(x) + (match x {
        TableRef::Named { name, alias } => {
            " { name: "@ + object_name_put(
                name,
                ", alias: "@ + optional_identifier_put(alias, " }"@ + rest),
            )
        },
        TableRef::Subquery { select, alias, column_aliases } => {
            " { select: "@ + select_stmt_put(
                *select,
                ", alias: "@ + identifier_put(
                    alias,
                    ", column_aliases: "@ + identifier_list_put(column_aliases@, " }"@ + rest),
                ),
            )
        },
        TableRef::Join { left, op, right, condition } => {
            " { left: "@ + table_ref_put(
                *left,
                ", op: "@ + join_op_put(
                    op,
                    ", right: "@ + table_ref_put(
                        *right,
                        ", condition: "@ + join_condition_put(condition, " }"@ + rest),
                    ),
                ),
            )
        },
    })
}

fn put_table_ref(x: &TableRef, rest: String) -> (out: String)
    ensures
        out@ == table_ref_put(*x, rest@),
    decreases x, 0int,
{
    match x {
        TableRef::Named { name, alias } => {
            let r = cat2(" }", rest.as_str());
            let r = put_optional_identifier(alias, r);
            let r = cat2(", alias: ", r.as_str());
            let r = put_object_name(name, r);
            let r = cat2(" { name: ", r.as_str());
            cat2("Named", r.as_str())
        },
        TableRef::Subquery { select, alias, column_aliases } => {
            let r = cat2(" }", rest.as_str());
            let r = put_identifier_list(column_aliases, r);
            let r = cat2(", column_aliases: ", r.as_str());
            let r = put_identifier(alias, r);
            let r = cat2(", alias: ", r.as_str());
            let r = put_select_stmt(select, r);
            let r = cat2(" { select: ", r.as_str());
            cat2("Subquery", r.as_str())
        },
        TableRef::Join { left, op, right, condition } => {
            let r = cat2(" }", rest.as_str());
            let r = put_join_condition(condition, r);
            let r = cat2(", condition: ", r.as_str());
            let r = put_table_ref(right, r);
            let r = cat2(", right: ", r.as_str());
            let r = put_join_op(*op, r);
            let r = cat2(", op: ", r.as_str());
            let r = put_table_ref(left, r);
            let r = cat2(" { left: ", r.as_str());
            cat2("Join", r.as_str())
        },
    }
}

/// The text of a branch of a `CASE`.
pub open spec fn branch_put(x: (Expr, Expr), rest: Seq<char>) -> Seq<char>
    decreases x, 0int,
{
    "("@ + expr_put(x.0, ", "@ + expr_put(x.1, ")"@ + rest))
}

fn put_branch(x: &(Expr, Expr), rest: String) -> (out: String)
    ensures
        out@ == branch_put(*x, rest@),
    decreases x, 0int,
{
    let r = cat2(")", rest.as_str());
    let r = put_expr(&x.1, r);
    let r = cat2(", ", r.as_str());
    let r = put_expr(&x.0, r);
    cat2("(", r.as_str())
}

/// The text of the branches of a `CASE` from the `i`-th on, and the closing bracket.
pub open spec fn branch_list_from(s: Seq<(Expr, Expr)>, i: int, rest: Seq<char>) -> Seq<char>
    decreases s, s.len() - i,
{
    if i < 0 || i >= s.len() {
        "]"@ + rest
    } else if i == 0 {
        branch_put(s[i], branch_list_from(s, i + 1, rest))
    } else {
        ", "@ + branch_put(s[i], branch_list_from(s, i + 1, rest))
    }
}

/// The text of a list of branches of a `CASE`.
pub open spec fn branch_list_put(s: Seq<(Expr, Expr)>, rest: Seq<char>) -> Seq<char>
    decreases s, s.len() + 1,
{
    "["@ + branch_list_from(s, 0, rest)
}

fn put_branch_list(s: &Vec<(Expr, Expr)>, rest: String) -> (out: String)
    ensures
        out@ == branch_list_put(s@, rest@),
    decreases s, 1int,
{
    let mut r = cat2("]", rest.as_str());
    let mut i: usize = s.len();
    while i > 0
        invariant
            i <= s.len(),
            r@ == branch_list_from(s@, i as int, rest@),
        decreases i,
    {
        i = i - 1;
        r = put_branch(&s[i], r);
        if i > 0 {
            r = cat2(", ", r.as_str());
        }
    }
    cat2("[", r.as_str())
}

/// The text of the common table expressions from the `i`-th on, and the closing bracket.
pub open spec fn cte_def_list_from(s: Seq<CteDef>, i: int, rest: Seq<char>) -> Seq<char>
    decreases s, s.len() - i,
{
    if i < 0 || i >= s.len() {
        "]"@ + rest
    } else if i == 0 {
        cte_def_put(s[i], cte_def_list_from(s, i + 1, rest))
    } else {
        ", "@ + cte_def_put(s[i], cte_def_list_from(s, i + 1, rest))
    }
}

/// The text of a list of common table expressions.
pub open spec fn cte_def_list_put(s: Seq<CteDef>, rest: Seq<char>) -> Seq<char>
    decreases s, s.len() + 1,
{
    "["@ + cte_def_list_from(s, 0, rest)
}

fn put_cte_def_list(s: &Vec<CteDef>, rest: String) -> (out: String)
    ensures
        out@ == cte_def_list_put(s@, rest@),
    decreases s, 1int,
{
    let mut r = cat2("]", rest.as_str());
    let mut i: usize = s.len();
    while i > 0
        invariant
            i <= s.len(),
            r@ == cte_def_list_from(s@, i as int, rest@),
        decreases i,
    {
        i = i - 1;
        r = put_cte_def(&s[i], r);
        if i > 0 {
            r = cat2(", ", r.as_str());
        }
    }
    cat2("[", r.as_str())
}

/// The text of the expressions from the `i`-th on, and the closing bracket.
pub open spec fn expr_list_from(s: Seq<Expr>, i: int, rest: Seq<char>) -> Seq<char>
    decreases s, s.len() - i,
{
    if i < 0 || i >= s.len() {
        "]"@ + rest
    } else if i == 0 {
        expr_put(s[i], expr_list_from(s, i + 1, rest))
    } else {
        ", "@ + expr_put(s[i], expr_list_from(s, i + 1, rest))
    }
}

/// The text of a list of expressions.
pub open spec fn expr_list_put(s: Seq<Expr>, rest: Seq<char>) -> Seq<char>
    decreases s, s.len() + 1,
{
    "["@ + expr_list_from(s, 0, rest)
}

fn put_expr_list(s: &Vec<Expr>, rest: String) -> (out: String)
    ensures
        out@ == expr_list_put(s@, rest@),
    decreases s, 1int,
{
    let mut r = cat2("]", rest.as_str());
    let mut i: usize = s.len();
    while i > 0
        invariant
            i <= s.len(),
            r@ == expr_list_from(s@, i as int, rest@),
        decreases i,
    {
        i = i - 1;
        r = put_expr(&s[i], r);
        if i > 0 {
            r = cat2(", ", r.as_str());
        }
    }
    cat2("[", r.as_str())
}

/// The text of the names from the `i`-th on, and the closing bracket.
pub open spec fn identifier_list_from(s: Seq<Identifier>, i: int, rest: Seq<char>) -> Seq<char>
    decreases s.len() - i,
{
    if i < 0 || i >= s.len() {
        "]"@ + rest
    } else if i == 0 {
        identifier_put(s[i], identifier_list_from(s, i + 1, rest))
    } else {
        ", "@ + identifier_put(s[i], identifier_list_from(s, i + 1, rest))
    }
}

/// The text of a list of names.
pub open spec fn identifier_list_put(s: Seq<Identifier>, rest: Seq<char>) -> Seq<char> {
    "["@ + identifier_list_from(s, 0, rest)
}

fn put_identifier_list(s: &Vec<Identifier>, rest: String) -> (out: String)
    ensures
        out@ == identifier_list_put(s@, rest@),
{
    let mut r = cat2("]", rest.as_str());
    let mut i: usize = s.len();
    while i > 0
        invariant
            i <= s.len(),
            r@ == identifier_list_from(s@, i as int, rest@),
        decreases i,
    {
        i = i - 1;
        r = put_identifier(&s[i], r);
        if i > 0 {
            r = cat2(", ", r.as_str());
        }
    }
    cat2("[", r.as_str())
}

/// The text of the sort keys from the `i`-th on, and the closing bracket.
pub open spec fn order_item_list_from(s: Seq<OrderItem>, i: int, rest: Seq<char>) -> Seq<char>
    decreases s, s.len() - i,
{
    if i < 0 || i >= s.len() {
        "]"@ + rest
    } else if i == 0 {
        order_item_put(s[i], order_item_list_from(s, i + 1, rest))
    } else {
        ", "@ + order_item_put(s[i], order_item_list_from(s, i + 1, rest))
    }
}

/// The text of a list of sort keys.
pub open spec fn order_item_list_put(s: Seq<OrderItem>, rest: Seq<char>) -> Seq<char>
    decreases s, s.len() + 1,
{
    "["@ + order_item_list_from(s, 0, rest)
}

fn put_order_item_list(s: &Vec<OrderItem>, rest: String) -> (out: String)
    ensures
        out@ == order_item_list_put(s@, rest@),
    decreases s, 1int,
{
    let mut r = cat2("]", rest.as_str());
    let mut i: usize = s.len();
    while i > 0
        invariant
            i <= s.len(),
            r@ == order_item_list_from(s@, i as int, rest@),
        decreases i,
    {
        i = i - 1;
        r = put_order_item(&s[i], r);
        if i > 0 {
            r = cat2(", ", r.as_str());
        }
    }
    cat2("[", r.as_str())
}

/// The text of the items of a projection from the `i`-th on, and the closing bracket.
pub open spec fn select_item_list_from(s: Seq<SelectItem>, i: int, rest: Seq<char>) -> Seq<char>
    decreases s, s.len() - i,
{
    if i < 0 || i >= s.len() {
        "]"@ + rest
    } else if i == 0 {
        select_item_put(s[i], select_item_list_from(s, i + 1, rest))
    } else {
        ", "@ + select_item_put(s[i], select_item_list_from(s, i + 1, rest))
    }
}

/// The text of a list of items of a projection.
pub open spec fn select_item_list_put(s: Seq<SelectItem>, rest: Seq<char>) -> Seq<char>
    decreases s, s.len() + 1,
{
    "["@ + select_item_list_from(s, 0, rest)
}

fn put_select_item_list(s: &Vec<SelectItem>, rest: String) -> (out: String)
    ensures
        out@ == select_item_list_put(s@, rest@),
    decreases s, 1int,
{
    let mut r = cat2("]", rest.as_str());
    let mut i: usize = s.len();
    while i > 0
        invariant
            i <= s.len(),
            r@ == select_item_list_from(s@, i as int, rest@),
        decreases i,
    {
        i = i - 1;
        r = put_select_item(&s[i], r);
        if i > 0 {
            r = cat2(", ", r.as_str());
        }
    }
    cat2("[", r.as_str())
}

/// The text of the set operations from the `i`-th on, and the closing bracket.
pub open spec fn set_op_tail_list_from(s: Seq<SetOpTail>, i: int, rest: Seq<char>) -> Seq<char>
    decreases s, s.len() - i,
{
    if i < 0 || i >= s.len() {
        "]"@ + rest
    } else if i == 0 {
        set_op_tail_put(s[i], set_op_tail_list_from(s, i + 1, rest))
    } else {
        ", "@ + set_op_tail_put(s[i], set_op_tail_list_from(s, i + 1, rest))
    }
}

/// The text of a list of set operations.
pub open spec fn set_op_tail_list_put(s: Seq<SetOpTail>, rest: Seq<char>) -> Seq<char>
    decreases s, s.len() + 1,
{
    "["@ + set_op_tail_list_from(s, 0, rest)
}

fn put_set_op_tail_list(s: &Vec<SetOpTail>, rest: String) -> (out: String)
    ensures
        out@ == set_op_tail_list_put(s@, rest@),
    decreases s, 1int,
{
    let mut r = cat2("]", rest.as_str());
    let mut i: usize = s.len();
    while i > 0
        invariant
            i <= s.len(),
            r@ == set_op_tail_list_from(s@, i as int, rest@),
        decreases i,
    {
        i = i - 1;
        r = put_set_op_tail(&s[i], r);
        if i > 0 {
            r = cat2(", ", r.as_str());
        }
    }
    cat2("[", r.as_str())
}

/// The text of the items of a `FROM` list from the `i`-th on, and the closing bracket.
pub open spec fn table_ref_list_from(s: Seq<TableRef>, i: int, rest: Seq<char>) -> Seq<char>
    decreases s, s.len() - i,
{
    if i < 0 || i >= s.len() {
        "]"@ + rest
    } else if i == 0 {
        table_ref_put(s[i], table_ref_list_from(s, i + 1, rest))
    } else {
        ", "@ + table_ref_put(s[i], table_ref_list_from(s, i + 1, rest))
    }
}

/// The text of a list of items of a `FROM` list.
pub open spec fn table_ref_list_put(s: Seq<TableRef>, rest: Seq<char>) -> Seq<char>
    decreases s, s.len() + 1,
{
    "["@ + table_ref_list_from(s, 0, rest)
}

fn put_table_ref_list(s: &Vec<TableRef>, rest: String) -> (out: String)
    ensures
        out@ == table_ref_list_put(s@, rest@),
    decreases s, 1int,
{
    let mut r = cat2("]", rest.as_str());
    let mut i: usize = s.len();
    while i > 0
        invariant
            i <= s.len(),
            r@ == table_ref_list_from(s@, i as int, rest@),
        decreases i,
    {
        i = i - 1;
        r = put_table_ref(&s[i], r);
        if i > 0 {
            r = cat2(", ", r.as_str());
        }
    }
    cat2("[", r.as_str())
}

/// The text of an optional expression.
pub open spec fn optional_expr_put(x: Option<Expr>, rest: Seq<char>) -> Seq<char>
    decreases x, 0int,
{
    match x {
        Some(y) => "Some"@ + ("("@ + expr_put(y, ")"@ + rest)),
        None => "None"@ + rest,
    }
}

fn put_optional_expr(x: &Option<Expr>, rest: String) -> (out: String)
    ensures
        out@ == optional_expr_put(*x, rest@),
    decreases x, 0int,
{
    match x {
        Some(y) => {
            let r = cat2(")", rest.as_str());
            let r = put_expr(y, r);
            let r = cat2("(", r.as_str());
            cat2("Some", r.as_str())
        },
        None => cat2("None", rest.as_str()),
    }
}

/// The text of an optional name.
pub open spec fn optional_identifier_put(x: Option<Identifier>, rest: Seq<char>) -> Seq<char> {
    match x {
        Some(y) => "Some"@ + ("("@ + identifier_put(y, ")"@ + rest)),
        None => "None"@ + rest,
    }
}

fn put_optional_identifier(x: &Option<Identifier>, rest: String) -> (out: String)
    ensures
        out@ == optional_identifier_put(*x, rest@),
{
    match x {
        Some(y) => {
            let r = cat2(")", rest.as_str());
            let r = put_identifier(y, r);
            let r = cat2("(", r.as_str());
            cat2("Some", r.as_str())
        },
        None => cat2("None", rest.as_str()),
    }
}

/// The text of an optional window.
pub open spec fn optional_window_spec_put(x: Option<WindowSpec>, rest: Seq<char>) -> Seq<char>
    decreases x, 0int,
{
    match x {
        Some(y) => "Some"@ + ("("@ + window_spec_put(y, ")"@ + rest)),
        None => "None"@ + rest,
    }
}

fn put_optional_window_spec(x: &Option<WindowSpec>, rest: String) -> (out: String)
    ensures
        out@ == optional_window_spec_put(*x, rest@),
    decreases x, 0int,
{
    match x {
        Some(y) => {
            let r = cat2(")", rest.as_str());
            let r = put_window_spec(y, r);
            let r = cat2("(", r.as_str());
            cat2("Some", r.as_str())
        },
        None => cat2("None", rest.as_str()),
    }
}

/// The text of an optional expression.
pub open spec fn optional_boxed_expr_put(x: Option<Box<Expr>>, rest: Seq<char>) -> Seq<char>
    decreases x, 0int,
{
    match x {
        Some(y) => "Some"@ + ("("@ + expr_put(*y, ")"@ + rest)),
        None => "None"@ + rest,
    }
}

fn put_optional_boxed_expr(x: &Option<Box<Expr>>, rest: String) -> (out: String)
    ensures
        out@ == optional_boxed_expr_put(*x, rest@),
    decreases x, 0int,
{
    match x {
        Some(y) => {
            let r = cat2(")", rest.as_str());
            let r = put_expr(y, r);
            let r = cat2("(", r.as_str());
            cat2("Some", r.as_str())
        },
        None => cat2("None", rest.as_str()),
    }
}

/// The text of an optional text.
pub open spec fn optional_quoted_put(x: Option<String>, rest: Seq<char>) -> Seq<char> {
    match x {
        Some(y) => "Some"@ + ("("@ + quoted_put(y@, ")"@ + rest)),
        None => "None"@ + rest,
    }
}

fn put_optional_quoted(x: &Option<String>, rest: String) -> (out: String)
    ensures
        out@ == optional_quoted_put(*x, rest@),
{
    match x {
        Some(y) => {
            let r = cat2(")", rest.as_str());
            let r = put_quoted(y.as_str(), r);
            let r = cat2("(", r.as_str());
            cat2("Some", r.as_str())
        },
        None => cat2("None", rest.as_str()),
    }
}

/// The text of an optional list of sort keys.
pub open spec fn optional_order_item_list_put(
    x: Option<Vec<OrderItem>>,
    rest: Seq<char>,
) -> Seq<char>
    decreases x, 0int,
{
    match x {
        Some(y) => "Some"@ + ("("@ + order_item_list_put(y@, ")"@ + rest)),
        None => "None"@ + rest,
    }
}

fn put_optional_order_item_list(x: &Option<Vec<OrderItem>>, rest: String) -> (out: String)
    ensures
        out@ == optional_order_item_list_put(*x, rest@),
    decreases x, 0int,
{
    match x {
        Some(y) => {
            let r = cat2(")", rest.as_str());
            let r = put_order_item_list(y, r);
            let r = cat2("(", r.as_str());
            cat2("Some", r.as_str())
        },
        None => cat2("None", rest.as_str()),
    }
}

/// The texts of the expressions from the `i`-th on, with commas between them.
pub open spec fn exprs_joined(s: Seq<Expr>, i: int, rest: Seq<char>) -> Seq<char>
    decreases s.len() - i,
{
    if i < 0 || i >= s.len() {
        rest
    } else if i == 0 {
        expr_put(s[i], exprs_joined(s, i + 1, rest))
    } else {
        ","@ + expr_put(s[i], exprs_joined(s, i + 1, rest))
    }
}

/// Writes the texts of expressions with commas between them.
pub fn join_exprs(s: &Vec<Expr>, rest: String) -> (out: String)
    ensures
        out@ == exprs_joined(s@, 0, rest@),
{
    let mut r = rest;
    let mut i: usize = s.len();
    while i > 0
        invariant
            i <= s.len(),
            r@ == exprs_joined(s@, i as int, rest@),
        decreases i,
    {
        i = i - 1;
        r = put_expr(&s[i], r);
        if i > 0 {
            r = cat2(",", r.as_str());
        }
    }
    r
}

/// The texts of the sort keys from the `i`-th on, with commas between them.
pub open spec fn order_items_joined(s: Seq<OrderItem>, i: int, rest: Seq<char>) -> Seq<char>
    decreases s.len() - i,
{
    if i < 0 || i >= s.len() {
        rest
    } else if i == 0 {
        order_item_put(s[i], order_items_joined(s, i + 1, rest))
    } else {
        ","@ + order_item_put(s[i], order_items_joined(s, i + 1, rest))
    }
}

/// Writes the texts of sort keys with commas between them.
pub fn join_order_items(s: &Vec<OrderItem>, rest: String) -> (out: String)
    ensures
        out@ == order_items_joined(s@, 0, rest@),
{
    let mut r = rest;
    let mut i: usize = s.len();
    while i > 0
        invariant
            i <= s.len(),
            r@ == order_items_joined(s@, i as int, rest@),
        decreases i,
    {
        i = i - 1;
        r = put_order_item(&s[i], r);
        if i > 0 {
            r = cat2(",", r.as_str());
        }
    }
    r
}

} // verus!

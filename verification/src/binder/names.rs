//! Names of relations and of output columns.
use crate::ast::{Expr, Identifier, ObjectName};
use crate::query::{ScalarExpr, ScalarExprView};
use crate::text::{cat3, owned, to_lower};
use crate::{render, text};
use vstd::prelude::*;

verus! {

/// The last part of a name as written; nothing for a name without parts.
pub open spec fn last_part(name: ObjectName) -> Seq<char> {
    if name.parts@.len() == 0 {
        Seq::empty()
    } else {
        name.parts@.last().value@
    }
}

/// The last part of a name in lower case.
pub open spec fn simple_name(name: ObjectName) -> Seq<char> {
    text::lower(last_part(name))
}

/// The part of a name before the last one in lower case, or `public`.
pub open spec fn namespace_of(name: ObjectName) -> Seq<char> {
    if name.parts@.len() >= 2 {
        text::lower(name.parts@[name.parts@.len() - 2].value@)
    } else {
        "public"@
    }
}

/// The part of a name before the last one in lower case, where there is one.
pub open spec fn explicit_namespace_of(name: ObjectName) -> Option<Seq<char>> {
    if name.parts@.len() >= 2 {
        Some(namespace_of(name))
    } else {
        None
    }
}

/// The last part of a name as written.
pub fn last_part_text(name: &ObjectName) -> (out: String)
    ensures
        out@ == last_part(*name),
{
    if name.parts.len() == 0 {
        String::new()
    } else {
        name.parts[name.parts.len() - 1].value.clone()
    }
}

/// The last part of a name in lower case.
pub fn object_name_simple(name: &ObjectName) -> (out: String)
    ensures
        out@ == simple_name(*name),
{
    let last = last_part_text(name);
    to_lower(last.as_str())
}

/// The namespace of a possibly qualified relation name: `t` is in `public`,
/// `s.t` and `c.s.t` are in `s`.
pub fn object_name_namespace(name: &ObjectName) -> (out: String)
    ensures
        out@ == namespace_of(*name),
{
    if name.parts.len() >= 2 {
        to_lower(name.parts[name.parts.len() - 2].value.as_str())
    } else {
        owned("public")
    }
}

/// The namespace of a relation name, where the name states one.
pub fn object_name_explicit_namespace(name: &ObjectName) -> (out: Option<String>)
    ensures
        (match out {
            Some(s) => Some(s@),
            None => None,
        }) == explicit_namespace_of(*name),
{
    if name.parts.len() >= 2 {
        Some(object_name_namespace(name))
    } else {
        None
    }
}

/// The name of an output column without an alias: a column reference keeps the
/// name as written, anything else is named by its text.
pub open spec fn output_name(e: Expr, bound: ScalarExprView) -> Seq<char> {
    match e {
        Expr::Column { name } => last_part(name),
        _ => render::scalar_text(bound),
    }
}

/// The name of an output column: its alias where it has one.
pub open spec fn named_output(e: Expr, bound: ScalarExprView, alias: Option<Identifier>) -> Seq<
    char,
> {
    match alias {
        Some(a) => a.value@,
        None => output_name(e, bound),
    }
}

/// The name of an output column without an alias.
pub fn derive_output_name(e: &Expr, bound: &ScalarExpr) -> (out: String)
    ensures
        out@ == output_name(*e, bound@),
{
    match e {
        Expr::Column { name } => last_part_text(name),
        _ => bound.show(),
    }
}

/// The name of an output column.
pub fn output_column_name(e: &Expr, bound: &ScalarExpr, alias: &Option<Identifier>) -> (out: String)
    ensures
        out@ == named_output(*e, bound@, *alias),
{
    match alias {
        Some(a) => a.value.clone(),
        None => derive_output_name(e, bound),
    }
}

/// The first `n` parts of a name, with points between them.
pub open spec fn dotted(parts: Seq<Identifier>, n: int) -> Seq<char>
    decreases n,
{
    if n <= 0 {
        Seq::empty()
    } else if n == 1 {
        parts[0].value@
    } else {
        dotted(parts, n - 1) + "."@ + parts[n - 1].value@
    }
}

/// A name with points between its parts.
pub fn dotted_name(name: &ObjectName) -> (out: String)
    ensures
        out@ == dotted(name.parts@, name.parts@.len() as int),
{
    if name.parts.len() == 0 {
        return String::new();
    }
    let mut out = name.parts[0].value.clone();
    let mut i: usize = 1;
    while i < name.parts.len()
        invariant
            1 <= i <= name.parts.len(),
            out@ == dotted(name.parts@, i as int),
        decreases name.parts.len() - i,
    {
        out = cat3(out.as_str(), ".", name.parts[i].value.as_str());
        i = i + 1;
    }
    out
}

} // verus!

//! Declared types, and the statements that define types and operators.
use crate::ast::{
    CompositeAttribute, CreateDomainStmt, CreateOperatorStmt, CreateTypeKind, CreateTypeStmt,
    DomainConstraint, ObjectName, TypeName,
};
use crate::binder::names::{object_name_namespace, object_name_simple};
use crate::binder::typing::type_error;
use crate::binder::{names, typing};
use crate::catalog::{Catalog, CatalogView};
use crate::datatype::{DataType, DataTypeView};
use crate::dialect::builtin::resolve_builtin_collation;
use crate::dialect::ddl::shared;
use crate::dialect::ddl::shared::{bind_condition, name_occurs_before, named_or};
use crate::dialect::reading::{Readings, ReadingsView};
use crate::dialect::typename::{
    build_vector_family_type, parse_network_type_name, parse_pg_identifier_path,
    resolve_plain_type, resolve_shape_type, MAX_NUMERIC_PRECISION, MAX_VECTOR_DIMS,
};
use crate::dialect::{builtin, typename};
use crate::error::{schema_or_mismatch, PlanError, PlanErrorView};
use crate::plan::{
    LogicalCheckConstraint, LogicalCheckConstraintView, LogicalPlan, LogicalPlanView,
};
use crate::schema::{Field, FieldView, Schema, SchemaView};
use crate::text::{cat2, cat3, cat4, cat5, eq_fold, owned, show_usize, text_eq, to_lower};
use crate::{error, list, plan, schema, text};
use vstd::prelude::*;

verus! {

/// The complaint about a type name that stands for nothing.
pub open spec fn unknown_type() -> PlanErrorView {
    PlanErrorView::NotSupported("CREATE TABLE: column type not implemented in v0.5"@)
}

/// A mismatch with the given text.
pub open spec fn mismatch(t: Seq<char>) -> PlanErrorView {
    PlanErrorView::TypeMismatch(t)
}

/// The first modifier of a type.
pub open spec fn first_modifier(m: Seq<u32>) -> Option<u32> {
    if m.len() > 0 {
        Some(m[0])
    } else {
        None
    }
}

fn modifier(m: &Vec<u32>) -> (first: Option<u32>)
    ensures
        first == first_modifier(m@),
{
    if m.len() > 0 {
        Some(m[0])
    } else {
        None
    }
}

/// A length, or one where none is stated.
pub open spec fn or_one(len: Option<u32>) -> Option<u32> {
    match len {
        Some(n) => Some(n),
        None => Some(1),
    }
}

fn length_or_one(len: Option<u32>) -> (out: Option<u32>)
    ensures
        out == or_one(len),
{
    match len {
        Some(n) => Some(n),
        None => Some(1),
    }
}

/// The blank-padded type of a length.
pub open spec fn bpchar_type(len: Option<u32>) -> Result<DataTypeView, PlanErrorView> {
    if len == Some(0u32) {
        Err(mismatch("length for type character must be at least 1"@))
    } else {
        Ok(DataTypeView::Char { len })
    }
}

/// Makes the blank-padded type of a length.
pub fn resolve_bpchar_type(len: Option<u32>) -> (made: Result<DataType, PlanError>)
    ensures
        error::type_outcome(made) == bpchar_type(len),
{
    if let Some(n) = len {
        if n == 0 {
            return Err(
                PlanError::TypeMismatch(owned("length for type character must be at least 1")),
            );
        }
    }
    Ok(DataType::Char { len })
}

/// The type of bit strings of a length.
pub open spec fn fixed_bit_type(len: Option<u32>) -> Result<DataTypeView, PlanErrorView> {
    if len == Some(0u32) {
        Err(mismatch("length for type bit must be at least 1"@))
    } else {
        Ok(DataTypeView::Bit { len })
    }
}

/// Makes the type of bit strings of a length.
pub fn resolve_bit_type(len: Option<u32>) -> (made: Result<DataType, PlanError>)
    ensures
        error::type_outcome(made) == fixed_bit_type(len),
{
    if let Some(n) = len {
        if n == 0 {
            return Err(PlanError::TypeMismatch(owned("length for type bit must be at least 1")));
        }
    }
    Ok(DataType::Bit { len })
}

/// The type of bit strings up to a length.
pub open spec fn varying_bit_type(max_len: Option<u32>) -> Result<DataTypeView, PlanErrorView> {
    if max_len == Some(0u32) {
        Err(mismatch("length for type bit varying must be at least 1"@))
    } else {
        Ok(DataTypeView::VarBit { max_len })
    }
}

/// Makes the type of bit strings up to a length.
pub fn resolve_varbit_type(max_len: Option<u32>) -> (made: Result<DataType, PlanError>)
    ensures
        error::type_outcome(made) == varying_bit_type(max_len),
{
    if let Some(n) = max_len {
        if n == 0 {
            return Err(
                PlanError::TypeMismatch(owned("length for type bit varying must be at least 1")),
            );
        }
    }
    Ok(DataType::VarBit { max_len })
}

/// The type of decimals with the given precision and scale.
pub open spec fn numeric_type(m: Seq<u32>) -> Result<DataTypeView, PlanErrorView> {
    if m.len() > 2 {
        Err(mismatch("NUMERIC accepts at most precision and scale modifiers"@))
    } else if m.len() > 0 && m[0] == 0 {
        Err(mismatch("NUMERIC precision must be at least 1"@))
    } else if m.len() > 0 && m[0] > MAX_NUMERIC_PRECISION {
        Err(
            mismatch(
                "NUMERIC precision must be at most "@ + text::decimal(
                    MAX_NUMERIC_PRECISION as nat,
                ),
            ),
        )
    } else if m.len() == 2 && m[1] > i32::MAX {
        Err(mismatch("NUMERIC scale does not fit int32"@))
    } else {
        Ok(
            DataTypeView::Decimal {
                precision: first_modifier(m),
                scale: if m.len() == 0 {
                    None
                } else if m.len() == 1 {
                    Some(0)
                } else {
                    Some(m[1] as i32)
                },
            },
        )
    }
}

/// Makes the type of decimals with the given precision and scale.
pub fn resolve_decimal_type(m: &Vec<u32>) -> (made: Result<DataType, PlanError>)
    ensures
        error::type_outcome(made) == numeric_type(m@),
{
    if m.len() > 2 {
        return Err(
            PlanError::TypeMismatch(
                owned("NUMERIC accepts at most precision and scale modifiers"),
            ),
        );
    }
    if m.len() > 0 && m[0] == 0 {
        return Err(PlanError::TypeMismatch(owned("NUMERIC precision must be at least 1")));
    }
    if m.len() > 0 && m[0] > MAX_NUMERIC_PRECISION {
        let most = text::show_u64(MAX_NUMERIC_PRECISION as u64);
        return Err(
            PlanError::TypeMismatch(cat2("NUMERIC precision must be at most ", most.as_str())),
        );
    }
    if m.len() == 2 && m[1] > 0x7fff_ffff {
        return Err(PlanError::TypeMismatch(owned("NUMERIC scale does not fit int32")));
    }
    let scale: Option<i32> = if m.len() == 0 {
        None
    } else if m.len() == 1 {
        Some(0)
    } else {
        Some(m[1] as i32)
    };
    Ok(DataType::Decimal { precision: modifier(m), scale })
}

/// The name of a vector family as a type declaration states it.
pub open spec fn family_name(base: Seq<char>) -> Seq<char> {
    if base == "vector"@ {
        "VECTOR"@
    } else if base == "halfvec"@ {
        "HALFVEC"@
    } else if base == "sparsevec"@ {
        "SPARSEVEC"@
    } else {
        "BITVEC"@
    }
}

fn show_family(base: &str) -> (out: String)
    ensures
        out@ == family_name(base@),
{
    if text_eq(base, "vector") {
        owned("VECTOR")
    } else if text_eq(base, "halfvec") {
        owned("HALFVEC")
    } else if text_eq(base, "sparsevec") {
        owned("SPARSEVEC")
    } else {
        owned("BITVEC")
    }
}

/// The vector type of a family with the given modifiers.
pub open spec fn vector_family_type(base: Seq<char>, m: Seq<u32>) -> Result<
    DataTypeView,
    PlanErrorView,
> {
    if m.len() > 1 {
        Err(mismatch(family_name(base) + " accepts at most one dimension modifier"@))
    } else if m.len() == 1 && m[0] == 0 {
        Err(mismatch(family_name(base) + " dimension must be at least 1"@))
    } else if m.len() == 1 && m[0] > MAX_VECTOR_DIMS {
        Err(
            mismatch(
                family_name(base) + " dimension must be at most "@ + text::decimal(
                    MAX_VECTOR_DIMS as nat,
                ),
            ),
        )
    } else {
        match typename::family_type(base, first_modifier(m)) {
            Some(t) => Ok(t),
            None => Err(unknown_type()),
        }
    }
}

/// Makes the vector type of a family with the given modifiers.
pub fn resolve_vector_family_type(base: &str, m: &Vec<u32>) -> (made: Result<DataType, PlanError>)
    ensures
        error::type_outcome(made) == vector_family_type(base@, m@),
{
    let sql_name = show_family(base);
    if m.len() > 1 {
        return Err(
            PlanError::TypeMismatch(
                cat2(sql_name.as_str(), " accepts at most one dimension modifier"),
            ),
        );
    }
    if m.len() == 1 && m[0] == 0 {
        return Err(
            PlanError::TypeMismatch(cat2(sql_name.as_str(), " dimension must be at least 1")),
        );
    }
    if m.len() == 1 && m[0] > MAX_VECTOR_DIMS {
        let most = text::show_u64(MAX_VECTOR_DIMS as u64);
        return Err(
            PlanError::TypeMismatch(
                cat3(sql_name.as_str(), " dimension must be at most ", most.as_str()),
            ),
        );
    }
    match build_vector_family_type(base, modifier(m)) {
        Some(t) => Ok(t),
        None => Err(
            PlanError::NotSupported("CREATE TABLE: column type not implemented in v0.5"),
        ),
    }
}

/// The type without array dimensions that a name and its modifiers stand for.
pub open spec fn scalar_type(n: Seq<char>, m: Seq<u32>) -> Result<DataTypeView, PlanErrorView> {
    if typename::plain_type(n) is Some {
        Ok(typename::plain_type(n)->Some_0)
    } else if typename::network_type(n) is Some {
        Ok(typename::network_type(n)->Some_0)
    } else if typename::shape_type(n) is Some {
        Ok(typename::shape_type(n)->Some_0)
    } else if n == "interval"@ {
        Ok(DataTypeView::Interval)
    } else if n == "varchar"@ || n == "character varying"@ {
        Ok(DataTypeView::Text { max_len: first_modifier(m) })
    } else if n == "char"@ || n == "character"@ {
        bpchar_type(or_one(first_modifier(m)))
    } else if n == "bpchar"@ {
        bpchar_type(first_modifier(m))
    } else if n == "bit"@ {
        fixed_bit_type(or_one(first_modifier(m)))
    } else if n == "varbit"@ || n == "bit varying"@ {
        varying_bit_type(first_modifier(m))
    } else if n == "decimal"@ || n == "numeric"@ {
        numeric_type(m)
    } else if n == "vector"@ || n == "halfvec"@ || n == "sparsevec"@ || n == "bitvec"@ {
        vector_family_type(n, m)
    } else {
        Err(unknown_type())
    }
}

fn resolve_scalar_type(n: &str, m: &Vec<u32>) -> (made: Result<DataType, PlanError>)
    ensures
        error::type_outcome(made) == scalar_type(n@, m@),
{
    if let Some(t) = resolve_plain_type(n) {
        return Ok(t);
    }
    if let Some(t) = parse_network_type_name(n) {
        return Ok(t);
    }
    if let Some(t) = resolve_shape_type(n) {
        return Ok(t);
    }
    if text_eq(n, "interval") {
        Ok(DataType::Interval)
    } else if text_eq(n, "varchar") || text_eq(n, "character varying") {
        Ok(DataType::Text { max_len: modifier(m) })
    } else if text_eq(n, "char") || text_eq(n, "character") {
        resolve_bpchar_type(length_or_one(modifier(m)))
    } else if text_eq(n, "bpchar") {
        resolve_bpchar_type(modifier(m))
    } else if text_eq(n, "bit") {
        resolve_bit_type(length_or_one(modifier(m)))
    } else if text_eq(n, "varbit") || text_eq(n, "bit varying") {
        resolve_varbit_type(modifier(m))
    } else if text_eq(n, "decimal") || text_eq(n, "numeric") {
        resolve_decimal_type(m)
    } else if text_eq(n, "vector") || text_eq(n, "halfvec") || text_eq(n, "sparsevec") || text_eq(
        n,
        "bitvec",
    ) {
        resolve_vector_family_type(n, m)
    } else {
        Err(PlanError::NotSupported("CREATE TABLE: column type not implemented in v0.5"))
    }
}

/// A type inside the given number of array levels.
pub open spec fn nested(t: DataTypeView, levels: nat) -> DataTypeView
    decreases levels,
{
    if levels == 0 {
        t
    } else {
        DataTypeView::Array(Box::new(nested(t, (levels - 1) as nat)))
    }
}

/// The number of array levels of a declared type.
pub open spec fn levels_of(t: TypeName) -> nat {
    if t.is_array {
        if t.array_dimensions == 0 {
            1
        } else {
            t.array_dimensions as nat
        }
    } else {
        0
    }
}

fn nest(t: &TypeName, element: DataType) -> (made: DataType)
    ensures
        made@ == nested(element@, levels_of(*t)),
{
    if !t.is_array {
        return element;
    }
    let levels: usize = if t.array_dimensions == 0 {
        1
    } else {
        t.array_dimensions
    };
    let ghost e = element@;
    let mut made = element;
    let mut i: usize = 0;
    while i < levels
        invariant
            i <= levels,
            made@ == nested(e, i as nat),
        decreases levels - i,
    {
        made = DataType::Array(Box::new(made));
        i = i + 1;
    }
    made
}

/// The builtin type that a declaration states.
pub open spec fn declared_type(t: TypeName) -> Result<DataTypeView, PlanErrorView> {
    match scalar_type(t.name.value@, t.type_modifiers@) {
        Err(e) => Err(e),
        Ok(element) => Ok(nested(element, levels_of(t))),
    }
}

/// Resolves the builtin type that a declaration states.
pub fn resolve_type_name(t: &TypeName) -> (made: Result<DataType, PlanError>)
    ensures
        error::type_outcome(made) == declared_type(*t),
{
    let element = resolve_scalar_type(t.name.value.as_str(), &t.type_modifiers)?;
    Ok(nest(t, element))
}

/// The type of a catalog that a name stands for; names of the system schema may
/// be builtin.
pub open spec fn custom_type(n: Seq<char>, m: Seq<u32>, cat: CatalogView) -> Option<DataTypeView> {
    match typename::name_path(n) {
        None => None,
        Some(parts) => if parts.len() == 1 {
            (cat.named_type)(parts[0])
        } else if parts.len() == 2 {
            if text::same_fold(parts[0], "pg_catalog"@) && scalar_type(parts[1], m) is Ok {
                Some(scalar_type(parts[1], m)->Ok_0)
            } else {
                (cat.named_type_in)(parts[0], parts[1])
            }
        } else {
            None
        },
    }
}

/// Finds the type of a catalog that a name stands for.
pub fn lookup_custom_type_name<C: Catalog>(catalog: &C, n: &str, m: &Vec<u32>) -> (found: Option<
    DataType,
>)
    ensures
        typename::type_view(found) == custom_type(n@, m@, catalog.model()),
{
    let parts = match parse_pg_identifier_path(n) {
        Some(parts) => parts,
        None => return None,
    };
    if parts.len() == 1 {
        assert(list::strings_view(parts@)[0] == parts@[0]@);
        catalog.lookup_type(parts[0].as_str())
    } else if parts.len() == 2 {
        assert(list::strings_view(parts@)[0] == parts@[0]@);
        assert(list::strings_view(parts@)[1] == parts@[1]@);
        if eq_fold(parts[0].as_str(), "pg_catalog") {
            if let Ok(t) = resolve_scalar_type(parts[1].as_str(), m) {
                return Some(t);
            }
        }
        catalog.lookup_type_in_schema(parts[0].as_str(), parts[1].as_str())
    } else {
        None
    }
}

/// The type that a declaration states, among the builtin types and those of a
/// catalog.
pub open spec fn declared_type_in(t: TypeName, cat: CatalogView) -> Result<
    DataTypeView,
    PlanErrorView,
> {
    match scalar_type(t.name.value@, t.type_modifiers@) {
        Ok(element) => Ok(nested(element, levels_of(t))),
        Err(PlanErrorView::NotSupported(_)) => match custom_type(
            t.name.value@,
            t.type_modifiers@,
            cat,
        ) {
            Some(element) => Ok(nested(element, levels_of(t))),
            None => Err(unknown_type()),
        },
        Err(e) => Err(e),
    }
}

/// Resolves the type that a declaration states.
pub fn resolve_type_name_with_catalog<C: Catalog>(t: &TypeName, catalog: &C) -> (made: Result<
    DataType,
    PlanError,
>)
    ensures
        error::type_outcome(made) == declared_type_in(*t, catalog.model()),
{
    match resolve_scalar_type(t.name.value.as_str(), &t.type_modifiers) {
        Ok(element) => Ok(nest(t, element)),
        Err(PlanError::NotSupported(_)) => match lookup_custom_type_name(
            catalog,
            t.name.value.as_str(),
            &t.type_modifiers,
        ) {
            Some(element) => Ok(nest(t, element)),
            None => Err(
                PlanError::NotSupported("CREATE TABLE: column type not implemented in v0.5"),
            ),
        },
        Err(e) => Err(e),
    }
}

/// A catalog cannot change what a builtin type name stands for.
pub proof fn builtin_types_come_first(t: TypeName, cat: CatalogView)
    ensures
        declared_type(t) is Ok ==> declared_type_in(t, cat) == declared_type(t),
{
}

/// The type of the numbers that a serial column counts in.
pub open spec fn serial_type(n: Seq<char>) -> Option<DataTypeView> {
    if n == "serial"@ || n == "serial4"@ {
        Some(DataTypeView::Int32)
    } else if n == "bigserial"@ || n == "serial8"@ {
        Some(DataTypeView::Int64)
    } else if n == "smallserial"@ || n == "serial2"@ {
        Some(DataTypeView::Int16)
    } else {
        None
    }
}

fn find_serial_type(n: &str) -> (found: Option<DataType>)
    ensures
        typename::type_view(found) == serial_type(n@),
{
    if text_eq(n, "serial") || text_eq(n, "serial4") {
        Some(DataType::Int32)
    } else if text_eq(n, "bigserial") || text_eq(n, "serial8") {
        Some(DataType::Int64)
    } else if text_eq(n, "smallserial") || text_eq(n, "serial2") {
        Some(DataType::Int16)
    } else {
        None
    }
}

/// The name of the sequence behind a serial column.
pub open spec fn serial_sequence(table: Seq<char>, column: Seq<char>) -> Seq<char> {
    text::lower(table) + "_"@ + text::lower(column) + "_seq"@
}

/// The type of a column, and for a serial column the name of its sequence.
pub open spec fn column_type(
    table: Seq<char>,
    column: Seq<char>,
    t: TypeName,
    cat: CatalogView,
) -> Result<
    (DataTypeView, Option<Seq<char>>),
    PlanErrorView,
> {
    match serial_type(t.name.value@) {
        Some(ty) => if t.type_modifiers@.len() > 0 {
            Err(PlanErrorView::NotSupported("CREATE TABLE: SERIAL type modifiers"@))
        } else {
            Ok((ty, Some(serial_sequence(table, column))))
        },
        None => match declared_type_in(t, cat) {
            Err(e) => Err(e),
            Ok(ty) => Ok((ty, None)),
        },
    }
}

/// A column type with its outcome as models.
pub open spec fn column_type_outcome(r: Result<(DataType, Option<String>), PlanError>) -> Result<
    (DataTypeView, Option<Seq<char>>),
    PlanErrorView,
> {
    match r {
        Ok((ty, sequence)) => Ok(
            (
                ty@,
                match sequence {
                    Some(s) => Some(s@),
                    None => None,
                },
            ),
        ),
        Err(e) => Err(e@),
    }
}

/// Resolves the type of a column.
pub fn resolve_column_type<C: Catalog>(
    table_name: &str,
    column_name: &str,
    t: &TypeName,
    catalog: &C,
) -> (made: Result<(DataType, Option<String>), PlanError>)
    ensures
        column_type_outcome(made) == column_type(table_name@, column_name@, *t, catalog.model()),
{
    match find_serial_type(t.name.value.as_str()) {
        Some(ty) => {
            if t.type_modifiers.len() > 0 {
                return Err(PlanError::NotSupported("CREATE TABLE: SERIAL type modifiers"));
            }
            let table = to_lower(table_name);
            let column = to_lower(column_name);
            Ok((ty, Some(cat4(table.as_str(), "_", column.as_str(), "_seq"))))
        },
        None => {
            let ty = resolve_type_name_with_catalog(t, catalog)?;
            Ok((ty, None))
        },
    }
}

/// Whether values of a type are compared by a collation.
pub open spec fn collatable(t: DataTypeView) -> bool
    decreases t,
{
    match t {
        DataTypeView::Text { .. } => true,
        DataTypeView::Char { .. } => true,
        DataTypeView::Domain { base_type, .. } => collatable(*base_type),
        _ => false,
    }
}

/// Tells whether values of a type are compared by a collation.
pub fn column_type_is_collatable(data_type: &DataType) -> (yes: bool)
    ensures
        yes == collatable(data_type@),
    decreases data_type,
{
    match data_type {
        DataType::Text { .. } => true,
        DataType::Char { .. } => true,
        DataType::Domain { base_type, .. } => column_type_is_collatable(base_type),
        _ => false,
    }
}

/// The number of the collation of a column.
pub open spec fn column_collation(
    column: Seq<char>,
    t: DataTypeView,
    collation: Option<ObjectName>,
) -> Result<
    Option<u32>,
    PlanErrorView,
> {
    match collation {
        None => Ok(None),
        Some(name) => if !collatable(t) {
            Err(
                typing::type_mismatch(
                    "COLLATE applies to text types, column '"@ + column + "' has type "@,
                    t,
                ),
            )
        } else {
            match builtin::named_collation(name) {
                Err(e) => Err(e),
                Ok(c) => Ok(Some(builtin::collation_oid(c))),
            }
        },
    }
}

/// Finds the number of the collation of a column.
pub fn bind_column_collation(
    column_name: &str,
    data_type: &DataType,
    collation: &Option<ObjectName>,
) -> (made:
    Result<Option<u32>, PlanError>)
    ensures
        error::outcome(made) == column_collation(column_name@, data_type@, *collation),
{
    match collation {
        None => Ok(None),
        Some(name) => {
            if !column_type_is_collatable(data_type) {
                let before = cat3(
                    "COLLATE applies to text types, column '",
                    column_name,
                    "' has type ",
                );
                return Err(type_error(before.as_str(), data_type));
            }
            let found = resolve_builtin_collation(name)?;
            Ok(Some(found.oid()))
        },
    }
}

/// The first label from the `i`-th on that occurs before.
pub open spec fn repeated_label(labels: Seq<Seq<char>>, i: int) -> Option<Seq<char>>
    decreases labels.len() - i,
{
    if i < 0 || i >= labels.len() {
        None
    } else if shared::occurs_before(labels, i) {
        Some(labels[i])
    } else {
        repeated_label(labels, i + 1)
    }
}

fn find_repeated_label(labels: &Vec<String>) -> (found: Option<String>)
    ensures
        (match found {
            Some(s) => Some(s@),
            None => None,
        }) == repeated_label(list::strings_view(labels@), 0),
{
    let mut i: usize = 0;
    while i < labels.len()
        invariant
            i <= labels.len(),
            repeated_label(list::strings_view(labels@), i as int) == repeated_label(
                list::strings_view(labels@),
                0,
            ),
        decreases labels.len() - i,
    {
        if name_occurs_before(labels, i) {
            return Some(labels[i].clone());
        }
        i = i + 1;
    }
    None
}

/// The labels of an accepted enumeration are distinct.
pub proof fn accepted_labels_are_distinct(labels: Seq<Seq<char>>, from: int)
    requires
        0 <= from <= labels.len(),
    ensures
        repeated_label(labels, from) is None ==> forall|i: int, j: int|
            0 <= i < j < labels.len() && j >= from ==> #[trigger] labels[i] != #[trigger] labels[j],
    decreases labels.len() - from,
{
    if from < labels.len() {
        accepted_labels_are_distinct(labels, from + 1);
        if repeated_label(labels, from) is None {
            assert forall|i: int, j: int| 0 <= i < j < labels.len() && j >= from implies
                #[trigger] labels[i] != #[trigger] labels[j] by {
                if j == from {
                    assert(!shared::occurs_before(labels, from));
                }
            }
        }
    }
}

/// The attributes of a composite type from the `i`-th on, as columns.
pub open spec fn attributes_from(
    attributes: Seq<CompositeAttribute>,
    i: int,
    cat: CatalogView,
    acc: Seq<FieldView>,
) -> Result<Seq<FieldView>, PlanErrorView>
    decreases attributes.len() - i,
{
    if i < 0 || i >= attributes.len() {
        Ok(acc)
    } else {
        match declared_type_in(attributes[i].data_type, cat) {
            Err(e) => Err(e),
            Ok(ty) => attributes_from(
                attributes,
                i + 1,
                cat,
                acc.push(schema::nullable_field(attributes[i].name.value@, ty)),
            ),
        }
    }
}

/// Columns with their outcome as models.
pub open spec fn fields_outcome(r: Result<Vec<Field>, PlanError>) -> Result<
    Seq<FieldView>,
    PlanErrorView,
> {
    match r {
        Ok(fields) => Ok(schema::fields_view(fields@)),
        Err(e) => Err(e@),
    }
}

fn bind_attributes<C: Catalog>(attributes: &Vec<CompositeAttribute>, catalog: &C) -> (made: Result<
    Vec<Field>,
    PlanError,
>)
    ensures
        fields_outcome(made) == attributes_from(attributes@, 0, catalog.model(), Seq::empty()),
{
    let ghost cat = catalog.model();
    let mut fields: Vec<Field> = Vec::new();
    assert(schema::fields_view(fields@) =~= Seq::empty());
    let mut i: usize = 0;
    while i < attributes.len()
        invariant
            i <= attributes.len(),
            cat == catalog.model(),
            attributes_from(attributes@, i as int, cat, schema::fields_view(fields@))
                == attributes_from(attributes@, 0, cat, Seq::empty()),
        decreases attributes.len() - i,
    {
        let ty = resolve_type_name_with_catalog(&attributes[i].data_type, catalog)?;
        let field = Field::nullable(attributes[i].name.value.clone(), ty);
        proof {
            schema::lemma_fields_push(fields@, field);
        }
        fields.push(field);
        i = i + 1;
    }
    Ok(fields)
}

/// What a `CREATE TYPE` is bound to.
pub open spec fn bound_create_type(s: CreateTypeStmt, cat: CatalogView) -> Result<
    LogicalPlanView,
    PlanErrorView,
> {
    let name = names::simple_name(s.name);
    let namespace = names::namespace_of(s.name);
    if (cat.named_type_in)(namespace, name) is Some {
        Err(mismatch("type '"@ + name + "' already exists"@))
    } else {
        match s.kind {
            CreateTypeKind::Enum { labels } => if labels@.len() == 0 {
                Err(mismatch("enum type '"@ + name + "' must have at least one label"@))
            } else {
                match repeated_label(list::strings_view(labels@), 0) {
                    Some(label) => Err(
                        mismatch("enum type '"@ + name + "' repeats label '"@ + label + "'"@),
                    ),
                    None => Ok(
                        LogicalPlanView::CreateTypeEnum {
                            name,
                            namespace,
                            labels: list::strings_view(labels@),
                            schema: schema::empty_schema(),
                        },
                    ),
                }
            },
            CreateTypeKind::Composite { attributes } => if attributes@.len() == 0 {
                Err(mismatch("composite type '"@ + name + "' must have at least one attribute"@))
            } else {
                match attributes_from(attributes@, 0, cat, Seq::empty()) {
                    Err(e) => Err(e),
                    Ok(fields) => match error::labelled_schema(""@, fields) {
                        Err(e) => Err(e),
                        Ok(row) => Ok(
                            LogicalPlanView::CreateTypeComposite {
                                name,
                                namespace,
                                attributes: row,
                                schema: schema::empty_schema(),
                            },
                        ),
                    },
                }
            },
        }
    }
}

/// Binds a `CREATE TYPE` statement.
pub fn bind_create_type<C: Catalog>(s: &CreateTypeStmt, catalog: &C) -> (made: Result<
    LogicalPlan,
    PlanError,
>)
    ensures
        error::plan_outcome(made) == bound_create_type(*s, catalog.model()),
{
    let name = object_name_simple(&s.name);
    let namespace = object_name_namespace(&s.name);
    if catalog.lookup_type_in_schema(namespace.as_str(), name.as_str()).is_some() {
        return Err(PlanError::TypeMismatch(cat3("type '", name.as_str(), "' already exists")));
    }
    match &s.kind {
        CreateTypeKind::Enum { labels } => {
            if labels.len() == 0 {
                return Err(
                    PlanError::TypeMismatch(
                        cat3("enum type '", name.as_str(), "' must have at least one label"),
                    ),
                );
            }
            if let Some(label) = find_repeated_label(labels) {
                return Err(
                    PlanError::TypeMismatch(
                        cat5(
                            "enum type '",
                            name.as_str(),
                            "' repeats label '",
                            label.as_str(),
                            "'",
                        ),
                    ),
                );
            }
            Ok(
                LogicalPlan::CreateTypeEnum {
                    name,
                    namespace,
                    labels: list::duplicate_strings(labels),
                    schema: Schema::empty(),
                },
            )
        },
        CreateTypeKind::Composite { attributes } => {
            if attributes.len() == 0 {
                return Err(
                    PlanError::TypeMismatch(
                        cat3(
                            "composite type '",
                            name.as_str(),
                            "' must have at least one attribute",
                        ),
                    ),
                );
            }
            let fields = bind_attributes(attributes, catalog)?;
            let row = schema_or_mismatch("", fields)?;
            Ok(
                LogicalPlan::CreateTypeComposite {
                    name,
                    namespace,
                    attributes: row,
                    schema: Schema::empty(),
                },
            )
        },
    }
}

/// The row that the checks of a domain are bound against: the value itself.
pub open spec fn value_row(base: DataTypeView) -> SchemaView {
    SchemaView { fields: seq![schema::nullable_field("value"@, base)] }
}

fn make_value_row(base: &DataType) -> (row: Schema)
    ensures
        row@ == value_row(base@),
{
    let mut fields: Vec<Field> = Vec::new();
    let field = Field::nullable(owned("value"), base.duplicate());
    fields.push(field);
    assert(schema::fields_view(fields@) =~= seq![schema::nullable_field("value"@, base@)]);
    Schema { fields }
}

/// The name of a condition that states none.
pub open spec fn domain_check_name(domain: Seq<char>, ordinal: nat) -> Seq<char> {
    domain + "_check_"@ + text::decimal(ordinal)
}

/// The conditions of a domain from the `i`-th constraint on. A condition
/// without a name is numbered.
pub open spec fn domain_checks(
    domain: Seq<char>,
    constraints: Seq<DomainConstraint>,
    i: int,
    row: SchemaView,
    cat: CatalogView,
    r: ReadingsView,
    acc: Seq<LogicalCheckConstraintView>,
) -> Result<Seq<LogicalCheckConstraintView>, PlanErrorView>
    decreases constraints.len() - i,
{
    if i < 0 || i >= constraints.len() {
        Ok(acc)
    } else {
        match constraints[i] {
            DomainConstraint::Check { name, expr } => match shared::bound_condition(
                expr,
                row,
                cat,
                r,
                "CHECK constraint on domain '"@ + domain + "'"@,
            ) {
                Err(e) => Err(e),
                Ok(bound) => domain_checks(
                    domain,
                    constraints,
                    i + 1,
                    row,
                    cat,
                    r,
                    acc.push(
                        LogicalCheckConstraintView {
                            name: shared::name_or(name, domain_check_name(domain, acc.len() + 1)),
                            expr: bound,
                        },
                    ),
                ),
            },
            _ => domain_checks(domain, constraints, i + 1, row, cat, r, acc),
        }
    }
}

/// Conditions with their outcome as models.
pub open spec fn checks_outcome(r: Result<Vec<LogicalCheckConstraint>, PlanError>) -> Result<
    Seq<LogicalCheckConstraintView>,
    PlanErrorView,
> {
    match r {
        Ok(checks) => Ok(plan::checks_view(checks@)),
        Err(e) => Err(e@),
    }
}

fn bind_domain_checks<C: Catalog>(
    domain: &str,
    constraints: &Vec<DomainConstraint>,
    row: &Schema,
    catalog: &C,
    readings: &Readings,
) -> (made: Result<Vec<LogicalCheckConstraint>, PlanError>)
    ensures
        checks_outcome(made) == domain_checks(
            domain@,
            constraints@,
            0,
            row@,
            catalog.model(),
            readings@,
            Seq::empty(),
        ),
{
    let ghost cat = catalog.model();
    let mut checks: Vec<LogicalCheckConstraint> = Vec::new();
    assert(plan::checks_view(checks@) =~= Seq::empty());
    let mut i: usize = 0;
    while i < constraints.len()
        invariant
            i <= constraints.len(),
            checks.len() <= i,
            cat == catalog.model(),
            domain_checks(
                domain@,
                constraints@,
                i as int,
                row@,
                cat,
                readings@,
                plan::checks_view(checks@),
            ) == domain_checks(domain@, constraints@, 0, row@, cat, readings@, Seq::empty()),
        decreases constraints.len() - i,
    {
        match &constraints[i] {
            DomainConstraint::Check { name, expr } => {
                let subject = cat3("CHECK constraint on domain '", domain, "'");
                let bound = bind_condition(expr, row, catalog, readings, subject.as_str())?;
                let number = show_usize(checks.len() + 1);
                let fallback = cat3(domain, "_check_", number.as_str());
                let check = LogicalCheckConstraint { name: named_or(name, fallback), expr: bound };
                proof {
                    plan::lemma_checks_push(checks@, check);
                }
                checks.push(check);
            },
            _ => {},
        }
        i = i + 1;
    }
    Ok(checks)
}

/// Whether a domain with the first `n` constraints refuses nulls: the last
/// constraint that says so counts.
pub open spec fn refuses_nulls(constraints: Seq<DomainConstraint>, n: int) -> bool
    decreases n,
{
    if n <= 0 || n > constraints.len() {
        false
    } else {
        match constraints[n - 1] {
            DomainConstraint::NotNull => true,
            DomainConstraint::Null => false,
            DomainConstraint::Check { .. } => refuses_nulls(constraints, n - 1),
        }
    }
}

fn domain_not_null(constraints: &Vec<DomainConstraint>) -> (not_null: bool)
    ensures
        not_null == refuses_nulls(constraints@, constraints@.len() as int),
{
    let mut not_null = false;
    let mut i: usize = 0;
    while i < constraints.len()
        invariant
            i <= constraints.len(),
            not_null == refuses_nulls(constraints@, i as int),
        decreases constraints.len() - i,
    {
        match &constraints[i] {
            DomainConstraint::NotNull => {
                not_null = true;
            },
            DomainConstraint::Null => {
                not_null = false;
            },
            DomainConstraint::Check { .. } => {},
        }
        i = i + 1;
    }
    not_null
}

/// What a `CREATE DOMAIN` is bound to.
pub open spec fn bound_create_domain(
    s: CreateDomainStmt,
    cat: CatalogView,
    r: ReadingsView,
) -> Result<
    LogicalPlanView,
    PlanErrorView,
> {
    let name = names::simple_name(s.name);
    let namespace = names::namespace_of(s.name);
    if (cat.named_type_in)(namespace, name) is Some {
        Err(mismatch("type '"@ + name + "' already exists"@))
    } else {
        match declared_type_in(s.data_type, cat) {
            Err(e) => Err(e),
            Ok(base) => if base is Domain {
                Err(
                    PlanErrorView::NotSupported(
                        "CREATE DOMAIN over another domain is not implemented"@,
                    ),
                )
            } else {
                match domain_checks(
                    name,
                    s.constraints@,
                    0,
                    value_row(base),
                    cat,
                    r,
                    Seq::empty(),
                ) {
                    Err(e) => Err(e),
                    Ok(checks) => Ok(
                        LogicalPlanView::CreateDomain {
                            domain_name: name,
                            namespace,
                            base_type: base,
                            not_null: refuses_nulls(s.constraints@, s.constraints@.len() as int),
                            checks,
                            schema: schema::empty_schema(),
                        },
                    ),
                }
            },
        }
    }
}

fn is_domain(t: &DataType) -> (yes: bool)
    ensures
        yes == (t@ is Domain),
{
    match t {
        DataType::Domain { .. } => true,
        _ => false,
    }
}

/// Binds a `CREATE DOMAIN` statement.
pub fn bind_create_domain<C: Catalog>(
    s: &CreateDomainStmt,
    catalog: &C,
    readings: &Readings,
) -> (made:
    Result<LogicalPlan, PlanError>)
    ensures
        error::plan_outcome(made) == bound_create_domain(*s, catalog.model(), readings@),
{
    let domain_name = object_name_simple(&s.name);
    let namespace = object_name_namespace(&s.name);
    if catalog.lookup_type_in_schema(namespace.as_str(), domain_name.as_str()).is_some() {
        return Err(
            PlanError::TypeMismatch(cat3("type '", domain_name.as_str(), "' already exists")),
        );
    }
    let base_type = resolve_type_name_with_catalog(&s.data_type, catalog)?;
    if is_domain(&base_type) {
        return Err(
            PlanError::NotSupported("CREATE DOMAIN over another domain is not implemented"),
        );
    }
    let row = make_value_row(&base_type);
    let checks = bind_domain_checks(
        domain_name.as_str(),
        &s.constraints,
        &row,
        catalog,
        readings,
    )?;
    Ok(
        LogicalPlan::CreateDomain {
            domain_name,
            namespace,
            base_type,
            not_null: domain_not_null(&s.constraints),
            checks,
            schema: Schema::empty(),
        },
    )
}

/// The result type of the function behind an operator.
pub open spec fn procedure_type(
    operator: Seq<char>,
    left: Option<DataTypeView>,
    right: Option<DataTypeView>,
    procedure: Seq<char>,
) -> Result<DataTypeView, PlanErrorView> {
    if procedure == "bool_eq"@ {
        if left == Some(DataTypeView::Bool) && right == Some(DataTypeView::Bool) {
            Ok(DataTypeView::Bool)
        } else {
            Err(
                mismatch(
                    "CREATE OPERATOR "@ + operator
                        + ": bool_eq requires boolean LEFTARG and RIGHTARG"@,
                ),
            )
        }
    } else {
        Err(PlanErrorView::NotSupported("CREATE OPERATOR currently supports built-in bool_eq"@))
    }
}

fn is_bool(t: &Option<DataType>) -> (yes: bool)
    ensures
        yes == (typename::type_view(*t) == Some(DataTypeView::Bool)),
{
    match t {
        Some(DataType::Bool) => true,
        _ => false,
    }
}

/// Finds the result type of the function behind an operator.
pub fn resolve_operator_procedure(
    operator_name: &str,
    left_type: &Option<DataType>,
    right_type: &Option<DataType>,
    procedure: &str,
) -> (made: Result<DataType, PlanError>)
    ensures
        error::type_outcome(made) == procedure_type(
            operator_name@,
            typename::type_view(*left_type),
            typename::type_view(*right_type),
            procedure@,
        ),
{
    if text_eq(procedure, "bool_eq") {
        if is_bool(left_type) && is_bool(right_type) {
            return Ok(DataType::Bool);
        }
        return Err(
            PlanError::TypeMismatch(
                cat3(
                    "CREATE OPERATOR ",
                    operator_name,
                    ": bool_eq requires boolean LEFTARG and RIGHTARG",
                ),
            ),
        );
    }
    Err(PlanError::NotSupported("CREATE OPERATOR currently supports built-in bool_eq"))
}

/// The type of an operand, where it is declared.
pub open spec fn operand_type(t: Option<TypeName>, cat: CatalogView) -> Result<
    Option<DataTypeView>,
    PlanErrorView,
> {
    match t {
        None => Ok(None),
        Some(t) => match declared_type_in(t, cat) {
            Err(e) => Err(e),
            Ok(ty) => Ok(Some(ty)),
        },
    }
}

fn resolve_operand<C: Catalog>(t: &Option<TypeName>, catalog: &C) -> (made: Result<
    Option<DataType>,
    PlanError,
>)
    ensures
        (match made {
            Ok(ty) => Ok(typename::type_view(ty)),
            Err(e) => Err(e@),
        }) == operand_type(*t, catalog.model()),
{
    match t {
        None => Ok(None),
        Some(t) => {
            let ty = resolve_type_name_with_catalog(t, catalog)?;
            Ok(Some(ty))
        },
    }
}

/// What a `CREATE OPERATOR` is bound to.
pub open spec fn bound_create_operator(s: CreateOperatorStmt, cat: CatalogView) -> Result<
    LogicalPlanView,
    PlanErrorView,
> {
    if s.name@.len() == 0 {
        Err(mismatch("operator name must not be empty"@))
    } else if s.left_arg is None && s.right_arg is None {
        Err(mismatch("operator '"@ + s.name@ + "' must declare LEFTARG or RIGHTARG"@))
    } else {
        match operand_type(s.left_arg, cat) {
            Err(e) => Err(e),
            Ok(left) => match operand_type(s.right_arg, cat) {
                Err(e) => Err(e),
                Ok(right) => {
                    let procedure = names::simple_name(s.procedure);
                    match procedure_type(s.name@, left, right, procedure) {
                        Err(e) => Err(e),
                        Ok(result_type) => Ok(
                            LogicalPlanView::CreateOperator {
                                operator_name: s.name@,
                                namespace: "public"@,
                                left_type: left,
                                right_type: right,
                                procedure,
                                result_type,
                                schema: schema::empty_schema(),
                            },
                        ),
                    }
                },
            },
        }
    }
}

/// Binds a `CREATE OPERATOR` statement.
pub fn bind_create_operator<C: Catalog>(s: &CreateOperatorStmt, catalog: &C) -> (made: Result<
    LogicalPlan,
    PlanError,
>)
    ensures
        error::plan_outcome(made) == bound_create_operator(*s, catalog.model()),
{
    proof {
        reveal_strlit("");
    }
    if text_eq(s.name.as_str(), "") {
        return Err(PlanError::TypeMismatch(owned("operator name must not be empty")));
    }
    assert(s.name@.len() == 0 ==> s.name@ =~= ""@);
    if s.left_arg.is_none() && s.right_arg.is_none() {
        return Err(
            PlanError::TypeMismatch(
                cat3("operator '", s.name.as_str(), "' must declare LEFTARG or RIGHTARG"),
            ),
        );
    }
    let left_type = resolve_operand(&s.left_arg, catalog)?;
    let right_type = resolve_operand(&s.right_arg, catalog)?;
    let procedure = object_name_simple(&s.procedure);
    let result_type = resolve_operator_procedure(
        s.name.as_str(),
        &left_type,
        &right_type,
        procedure.as_str(),
    )?;
    Ok(
        LogicalPlan::CreateOperator {
            operator_name: s.name.clone(),
            namespace: owned("public"),
            left_type,
            right_type,
            procedure,
            result_type,
            schema: Schema::empty(),
        },
    )
}

} // verus!

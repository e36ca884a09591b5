//! Field classification: whether a declared type is a plain type, an optional
//! wrapper or a repeated wrapper, decided by the shape of the type expression
//! alone.

use crate::syntax::{GenericArgument, PathArguments, TypeExpr};
use crate::text::is_name;
use vstd::prelude::*;

verus! {

/// How a field's declared type is treated.
#[derive(Debug, PartialEq, Eq)]
pub enum FieldKind<'a> {
    /// Any type that is not recognized as a wrapper; holds the declared type.
    Plain(&'a TypeExpr),
    /// `Option<T>`; holds `T`.
    Optional(&'a TypeExpr),
    /// `Vec<T>`; holds `T`.
    Repeated(&'a TypeExpr),
}

/// The name and the argument of a type written as `Name<Argument>`: a path
/// without a leading `::`, of exactly one segment, whose arguments are between
/// angle brackets and are exactly one type. `None` for every other shape.
pub open spec fn single_wrapper(ty: &TypeExpr) -> Option<(Seq<char>, &TypeExpr)> {
    match ty {
        TypeExpr::Path(path) => if !path.leading_colon && path.segments@.len() == 1 {
            match &path.segments@[0].arguments {
                PathArguments::AngleBracketed(arguments) => if arguments@.len() == 1 {
                    match &arguments@[0] {
                        GenericArgument::Type(inner) => Some((path.segments@[0].ident@, inner)),
                        GenericArgument::Verbatim(_) => None,
                    }
                } else {
                    None
                },
                _ => None,
            }
        } else {
            None
        },
        TypeExpr::Verbatim(_) => None,
    }
}

/// The kind of a field declared with type `ty`.
///
/// The match is on the text of the type expression: a type that is merely
/// named `Option` or `Vec` counts as the wrapper, and a wrapper reached
/// through a longer path, such as `std::option::Option<T>`, does not.
pub open spec fn field_kind(ty: &TypeExpr) -> FieldKind {
    match single_wrapper(ty) {
        Some((name, inner)) => if name == "Option"@ {
            FieldKind::Optional(inner)
        } else if name == "Vec"@ {
            FieldKind::Repeated(inner)
        } else {
            FieldKind::Plain(ty)
        },
        None => FieldKind::Plain(ty),
    }
}

/// Classifies the declared type of a field.
pub fn determine_field_type<'a>(field_type: &'a TypeExpr) -> (kind: FieldKind<'a>)
    ensures
        kind == field_kind(field_type),
{
    if let TypeExpr::Path(path) = field_type {
        if !path.leading_colon && path.segments.len() == 1 {
            let segment = &path.segments[0];
            if let PathArguments::AngleBracketed(arguments) = &segment.arguments {
                if arguments.len() == 1 {
                    if let GenericArgument::Type(inner) = &arguments[0] {
                        if is_name(&segment.ident, "Option") {
                            return FieldKind::Optional(inner);
                        } else if is_name(&segment.ident, "Vec") {
                            return FieldKind::Repeated(inner);
                        }
                    }
                }
            }
        }
    }
    FieldKind::Plain(field_type)
}

} // verus!

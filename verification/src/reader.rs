//! The declaration reader: only records with named fields go on to synthesis.

use crate::diagnostic::{Diagnostic, DiagnosticView, Span};
use crate::syntax::{Declaration, RecordDeclaration, Shape};
use vstd::prelude::*;

verus! {

/// The diagnostic for a declaration, found at `span`, that is not a record
/// with named fields.
pub open spec fn unsupported_shape(span: Span) -> DiagnosticView {
    DiagnosticView { message: "only named-field records are supported"@, span }
}

/// Accepts a record with named fields, keeping its name and its fields in
/// order, and rejects every other shape with [`unsupported_shape`] at the
/// declaration's span.
pub fn read_declaration(declaration: Declaration) -> (result: Result<RecordDeclaration, Diagnostic>)
    ensures
        match declaration.shape {
            Shape::NamedRecord(fields) => result == Ok::<RecordDeclaration, Diagnostic>(
                RecordDeclaration { name: declaration.name, fields },
            ),
            _ => result is Err && result->Err_0@ == unsupported_shape(declaration.span),
        },
{
    match declaration.shape {
        Shape::NamedRecord(fields) => Ok(RecordDeclaration { name: declaration.name, fields }),
        _ => Err(Diagnostic::new(declaration.span, "only named-field records are supported")),
    }
}

} // verus!

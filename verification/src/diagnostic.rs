//! Source locations and the diagnostics that generation reports.

use crate::text::{quote_string, string_literal};
use vstd::prelude::*;
use vstd::string::*;

verus! {

/// A line and column in the source text of a declaration.
#[derive(Clone, Copy, Debug, PartialEq, Eq, Structural)]
pub struct Position {
    pub line: usize,
    pub column: usize,
}

/// The region of source text that a declaration or an annotation occupies.
#[derive(Clone, Copy, Debug, PartialEq, Eq, Structural)]
pub struct Span {
    pub start: Position,
    pub end: Position,
}

/// A generation-time error: what is wrong, and where.
#[derive(Debug, PartialEq, Eq)]
pub struct Diagnostic {
    pub message: String,
    pub span: Span,
}

/// The mathematical value of a [`Diagnostic`].
pub struct DiagnosticView {
    pub message: Seq<char>,
    pub span: Span,
}

impl View for Diagnostic {
    type V = DiagnosticView;

    open spec fn view(&self) -> DiagnosticView {
        DiagnosticView { message: self.message@, span: self.span }
    }
}

impl DeepView for Diagnostic {
    type V = DiagnosticView;

    open spec fn deep_view(&self) -> DiagnosticView {
        self@
    }
}

/// The view of a generation result: the view of what was generated, or the
/// view of the diagnostic.
pub open spec fn outcome<T: DeepView>(result: Result<T, Diagnostic>) -> Result<
    T::V,
    DiagnosticView,
> {
    match result {
        Ok(value) => Ok(value.deep_view()),
        Err(diagnostic) => Err(diagnostic@),
    }
}

impl DiagnosticView {
    /// The source text that makes the compiler report this diagnostic: an
    /// invocation of `compile_error!` on the message.
    pub open spec fn failing_source(self) -> Seq<char> {
        "::core::compile_error! { "@ + string_literal(self.message) + " }"@
    }
}

impl Diagnostic {
    /// A diagnostic at `span` that says `message`.
    pub fn new(span: Span, message: &str) -> (diagnostic: Diagnostic)
        ensures
            diagnostic@ == (DiagnosticView { message: message@, span }),
    {
        Diagnostic { message: String::from_str(message), span }
    }

    /// Renders the diagnostic as source text that fails compilation with its
    /// message.
    pub fn into_compile_error(self) -> (source: String)
        ensures
            source@ == self@.failing_source(),
    {
        let mut source = String::from_str("::core::compile_error! { ");
        let literal = quote_string(self.message.as_str());
        source.append(literal.as_str());
        source.append(" }");
        source
    }
}

} // verus!

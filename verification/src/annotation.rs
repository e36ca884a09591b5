//! The annotation interpreter: what the first annotation of a field asks of
//! each generator.

use crate::diagnostic::{outcome, Diagnostic, DiagnosticView, Span};
use crate::syntax::{
    Annotation, AnnotationBody, AnnotationBodyView, AnnotationPath, AnnotationValue,
    AnnotationValueView, AnnotationView, NameValue, NameValueView,
};
use syn::parse::Parser;
use vstd::prelude::*;

verus! {

/// The `key = value` pairs that the token text of an annotation's list holds,
/// in order, or `None` where the text is not a comma-separated list of such
/// pairs.
pub uninterp spec fn parsed_name_values(tokens: Seq<char>) -> Option<Seq<NameValueView>>;

/// Parses `tokens` with `syn`, as `Punctuated<MetaNameValue, Comma>` read by
/// `parse_terminated` through `Parser::parse_str`, and hands the pairs out as
/// plain values: each key with its leading `::` flag and segment names, each
/// value as the string it denotes when it is a string literal. A parse error
/// becomes `None`. The contract names the result and says nothing else of it.
#[verifier::external_body]
pub(crate) fn parse_name_values(tokens: &str) -> (pairs: Option<Vec<NameValue>>)
    ensures
        pairs.deep_view() == parsed_name_values(tokens@),
{
    let parser = syn::punctuated::Punctuated::<syn::MetaNameValue, syn::token::Comma>::parse_terminated;
    let parsed = parser.parse_str(tokens).ok()?;
    Some(parsed.iter().map(|pair| NameValue {
        path: AnnotationPath {
            leading_colon: pair.path.leading_colon.is_some(),
            segments: pair.path.segments.iter().map(|segment| segment.ident.to_string()).collect(),
        },
        value: match &pair.value {
            syn::Expr::Lit(syn::ExprLit { lit: syn::Lit::Str(text), .. }) => AnnotationValue::Str(text.value()),
            _ => AnnotationValue::Other,
        },
    }).collect())
}

/// The diagnostic for a `builder` annotation of the wrong shape.
pub open spec fn expected_each(span: Span) -> DiagnosticView {
    DiagnosticView { message: "expected `builder(each = \"...\")`"@, span }
}

/// The diagnostic for a `debug` annotation whose value is not a string.
pub open spec fn expected_debug(span: Span) -> DiagnosticView {
    DiagnosticView { message: "expected debug = \"...\""@, span }
}

/// What the parsed list of a `builder` annotation yields: the accessor name,
/// where the list is exactly one pair, its key is `each` and its value is a
/// string literal; [`expected_each`] for everything else, a list that did not
/// parse included.
pub open spec fn each_payload(parsed: Option<Seq<NameValueView>>, span: Span) -> Result<
    Option<Seq<char>>,
    DiagnosticView,
> {
    match parsed {
        Some(pairs) => if pairs.len() == 1 && pairs[0].path.names("each"@) {
            match pairs[0].value {
                AnnotationValueView::Str(name) => Ok(Some(name)),
                AnnotationValueView::Other => Err(expected_each(span)),
            }
        } else {
            Err(expected_each(span))
        },
        None => Err(expected_each(span)),
    }
}

/// What an annotation asks of the builder generator.
///
/// An annotation under another name asks nothing. One named `builder` must be
/// a list, and the list decides as [`each_payload`] says.
pub open spec fn each_annotation(annotation: AnnotationView) -> Result<
    Option<Seq<char>>,
    DiagnosticView,
> {
    if annotation.path.names("builder"@) {
        match annotation.body {
            AnnotationBodyView::List(tokens) => each_payload(
                parsed_name_values(tokens),
                annotation.span,
            ),
            _ => Err(expected_each(annotation.span)),
        }
    } else {
        Ok(None)
    }
}

/// What an annotation asks of the debug generator.
///
/// Only `debug = value` is recognized: a string value is the format string,
/// any other value is reported with [`expected_debug`]. Every other
/// annotation asks nothing.
pub open spec fn debug_annotation(annotation: AnnotationView) -> Result<
    Option<Seq<char>>,
    DiagnosticView,
> {
    match annotation.body {
        AnnotationBodyView::Value(value) => if annotation.path.names("debug"@) {
            match value {
                AnnotationValueView::Str(format) => Ok(Some(format)),
                AnnotationValueView::Other => Err(expected_debug(annotation.span)),
            }
        } else {
            Ok(None)
        },
        _ => Ok(None),
    }
}

/// Decides [`each_payload`] on a parsed list.
pub fn each_from_pairs(parsed: Option<Vec<NameValue>>, span: Span) -> (result: Result<
    Option<String>,
    Diagnostic,
>)
    ensures
        outcome(result) == each_payload(parsed.deep_view(), span),
{
    if let Some(mut pairs) = parsed {
        if pairs.len() == 1 && pairs[0].path.is_ident("each") {
            if let Some(pair) = pairs.pop() {
                if let AnnotationValue::Str(name) = pair.value {
                    return Ok(Some(name));
                }
            }
        }
    }
    Err(Diagnostic::new(span, "expected `builder(each = \"...\")`"))
}

/// Interprets an annotation for the builder generator, as
/// [`each_annotation`] says.
pub fn inspect_each(annotation: &Annotation) -> (result: Result<Option<String>, Diagnostic>)
    ensures
        outcome(result) == each_annotation(annotation@),
{
    if !annotation.path.is_ident("builder") {
        return Ok(None);
    }
    match &annotation.body {
        AnnotationBody::List(tokens) => each_from_pairs(
            parse_name_values(tokens.as_str()),
            annotation.span,
        ),
        _ => Err(Diagnostic::new(annotation.span, "expected `builder(each = \"...\")`")),
    }
}

/// Interprets an annotation for the debug generator, as
/// [`debug_annotation`] says.
pub fn inspect_debug(annotation: &Annotation) -> (result: Result<Option<String>, Diagnostic>)
    ensures
        outcome(result) == debug_annotation(annotation@),
{
    match &annotation.body {
        AnnotationBody::Value(value) => {
            if annotation.path.is_ident("debug") {
                match value {
                    AnnotationValue::Str(format) => Ok(Some(format.clone())),
                    AnnotationValue::Other => Err(
                        Diagnostic::new(annotation.span, "expected debug = \"...\""),
                    ),
                }
            } else {
                Ok(None)
            }
        },
        _ => Ok(None),
    }
}

} // verus!

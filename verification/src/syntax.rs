//! The declaration model: a record-like declaration with its named fields,
//! their declared type expressions and their annotations, held as plain values.

use crate::diagnostic::Span;
use crate::text::is_name;
use vstd::prelude::*;
use vstd::string::*;

verus! {

/// A declared type expression.
///
/// Paths keep their structure, because classification matches on it. Every
/// other form of type, and a path with a qualified-self prefix, is kept as its
/// source text.
#[derive(Debug, PartialEq, Eq)]
pub enum TypeExpr {
    Path(TypePath),
    Verbatim(String),
}

/// A path such as `Vec<String>` or `::std::string::String`.
#[derive(Debug, PartialEq, Eq)]
pub struct TypePath {
    /// Whether the path starts with `::`.
    pub leading_colon: bool,
    pub segments: Vec<PathSegment>,
}

/// One segment of a path, with the arguments attached to it.
#[derive(Debug, PartialEq, Eq)]
pub struct PathSegment {
    pub ident: String,
    pub arguments: PathArguments,
}

/// What follows the name of a path segment.
#[derive(Debug, PartialEq, Eq)]
pub enum PathArguments {
    /// Nothing, as in `String`.
    Bare,
    /// Generic arguments between angle brackets, as in `Vec<String>`.
    AngleBracketed(Vec<GenericArgument>),
    /// The parenthesized form, as in `Fn(u8) -> bool`, kept as source text
    /// from the opening parenthesis on.
    Parenthesized(String),
}

/// One argument between angle brackets.
#[derive(Debug, PartialEq, Eq)]
pub enum GenericArgument {
    /// A type argument.
    Type(TypeExpr),
    /// A lifetime, a constant or a binding, kept as source text.
    Verbatim(String),
}

/// The path that names an annotation or a key inside one. Its segments carry
/// no arguments.
#[derive(Debug, PartialEq, Eq)]
pub struct AnnotationPath {
    /// Whether the path starts with `::`.
    pub leading_colon: bool,
    pub segments: Vec<String>,
}

/// The value on the right of `=` in an annotation.
#[derive(Debug, PartialEq, Eq)]
pub enum AnnotationValue {
    /// A string literal, by the value it denotes.
    Str(String),
    /// Any other expression.
    Other,
}

/// What an annotation holds after its path.
#[derive(Debug, PartialEq, Eq)]
pub enum AnnotationBody {
    /// Nothing: `#[name]`.
    Bare,
    /// A delimited list: `#[name(tokens)]`, by the source text of its tokens.
    List(String),
    /// A value: `#[name = value]`.
    Value(AnnotationValue),
}

/// One raw annotation attached to a field.
#[derive(Debug, PartialEq, Eq)]
pub struct Annotation {
    pub path: AnnotationPath,
    pub body: AnnotationBody,
    pub span: Span,
}

/// A `key = value` pair inside an annotation's list.
#[derive(Debug, PartialEq, Eq)]
pub struct NameValue {
    pub path: AnnotationPath,
    pub value: AnnotationValue,
}

/// One named field of a record: its name, its declared type and its raw
/// annotations in source order.
#[derive(Debug, PartialEq, Eq)]
pub struct FieldDescriptor {
    pub name: String,
    pub ty: TypeExpr,
    pub annotations: Vec<Annotation>,
}

/// The form a declaration has.
#[derive(Debug, PartialEq, Eq)]
pub enum Shape {
    /// A record with named fields, in declaration order.
    NamedRecord(Vec<FieldDescriptor>),
    /// A record whose fields have positions but no names.
    TupleRecord,
    /// A record without fields.
    UnitRecord,
    Enum,
    Union,
}

/// A declaration as it was read from source, before its shape is checked.
#[derive(Debug, PartialEq, Eq)]
pub struct Declaration {
    pub name: String,
    pub shape: Shape,
    pub span: Span,
}

/// A declaration known to be a record with named fields.
#[derive(Debug, PartialEq, Eq)]
pub struct RecordDeclaration {
    pub name: String,
    pub fields: Vec<FieldDescriptor>,
}

/// The mathematical value of an [`AnnotationPath`].
pub struct AnnotationPathView {
    pub leading_colon: bool,
    pub segments: Seq<Seq<char>>,
}

/// The mathematical value of an [`AnnotationValue`].
pub enum AnnotationValueView {
    Str(Seq<char>),
    Other,
}

/// The mathematical value of an [`AnnotationBody`].
pub enum AnnotationBodyView {
    Bare,
    List(Seq<char>),
    Value(AnnotationValueView),
}

/// The mathematical value of an [`Annotation`].
pub struct AnnotationView {
    pub path: AnnotationPathView,
    pub body: AnnotationBodyView,
    pub span: Span,
}

/// The mathematical value of a [`NameValue`].
pub struct NameValueView {
    pub path: AnnotationPathView,
    pub value: AnnotationValueView,
}

impl View for AnnotationPath {
    type V = AnnotationPathView;

    open spec fn view(&self) -> AnnotationPathView {
        AnnotationPathView {
            leading_colon: self.leading_colon,
            segments: self.segments.deep_view(),
        }
    }
}

impl DeepView for AnnotationPath {
    type V = AnnotationPathView;

    open spec fn deep_view(&self) -> AnnotationPathView {
        self@
    }
}

impl View for AnnotationValue {
    type V = AnnotationValueView;

    open spec fn view(&self) -> AnnotationValueView {
        match self {
            AnnotationValue::Str(value) => AnnotationValueView::Str(value@),
            AnnotationValue::Other => AnnotationValueView::Other,
        }
    }
}

impl DeepView for AnnotationValue {
    type V = AnnotationValueView;

    open spec fn deep_view(&self) -> AnnotationValueView {
        self@
    }
}

impl View for AnnotationBody {
    type V = AnnotationBodyView;

    open spec fn view(&self) -> AnnotationBodyView {
        match self {
            AnnotationBody::Bare => AnnotationBodyView::Bare,
            AnnotationBody::List(tokens) => AnnotationBodyView::List(tokens@),
            AnnotationBody::Value(value) => AnnotationBodyView::Value(value@),
        }
    }
}

impl DeepView for AnnotationBody {
    type V = AnnotationBodyView;

    open spec fn deep_view(&self) -> AnnotationBodyView {
        self@
    }
}

impl View for Annotation {
    type V = AnnotationView;

    open spec fn view(&self) -> AnnotationView {
        AnnotationView { path: self.path@, body: self.body@, span: self.span }
    }
}

impl DeepView for Annotation {
    type V = AnnotationView;

    open spec fn deep_view(&self) -> AnnotationView {
        self@
    }
}

impl View for NameValue {
    type V = NameValueView;

    open spec fn view(&self) -> NameValueView {
        NameValueView { path: self.path@, value: self.value@ }
    }
}

impl DeepView for NameValue {
    type V = NameValueView;

    open spec fn deep_view(&self) -> NameValueView {
        self@
    }
}

impl AnnotationPathView {
    /// Whether the path is the single identifier `name`: no leading `::` and
    /// exactly one segment, equal to `name`.
    pub open spec fn names(self, name: Seq<char>) -> bool {
        &&& !self.leading_colon
        &&& self.segments.len() == 1
        &&& self.segments[0] == name
    }
}

impl AnnotationPath {
    /// Whether the path is the single identifier `name`.
    pub fn is_ident(&self, name: &str) -> (same: bool)
        ensures
            same == self@.names(name@),
    {
        !self.leading_colon && self.segments.len() == 1 && is_name(&self.segments[0], name)
    }
}

/// The text of the first `n` segments, joined by `::`.
pub open spec fn segments_text(segments: Seq<PathSegment>, n: int) -> Seq<char>
    decreases segments, n,
{
    if n <= 0 || n > segments.len() {
        Seq::empty()
    } else if n == 1 {
        segments[0].text()
    } else {
        segments_text(segments, n - 1) + "::"@ + segments[n - 1].text()
    }
}

/// The text of the first `n` arguments, joined by `, `.
pub open spec fn arguments_text(arguments: Seq<GenericArgument>, n: int) -> Seq<char>
    decreases arguments, n,
{
    if n <= 0 || n > arguments.len() {
        Seq::empty()
    } else if n == 1 {
        arguments[0].text()
    } else {
        arguments_text(arguments, n - 1) + ", "@ + arguments[n - 1].text()
    }
}

/// Appends the arguments, joined by `, `.
fn write_arguments(arguments: &Vec<GenericArgument>, out: &mut String)
    ensures
        final(out)@ == old(out)@ + arguments_text(arguments@, arguments@.len() as int),
    decreases arguments,
{
    let ghost base = out@;
    let mut i: usize = 0;
    while i < arguments.len()
        invariant
            i <= arguments.len(),
            out@ == base + arguments_text(arguments@, i as int),
        decreases arguments.len() - i,
    {
        if i > 0 {
            out.append(", ");
        }
        arguments[i].write(out);
        i += 1;
    }
}

impl GenericArgument {
    /// The source text of the argument.
    pub open spec fn text(&self) -> Seq<char>
        decreases self,
    {
        match self {
            GenericArgument::Type(ty) => ty.text(),
            GenericArgument::Verbatim(source) => source@,
        }
    }

    /// Appends the source text to `out`.
    pub fn write(&self, out: &mut String)
        ensures
            final(out)@ == old(out)@ + self.text(),
        decreases self,
    {
        match self {
            GenericArgument::Type(ty) => ty.write(out),
            GenericArgument::Verbatim(source) => out.append(source.as_str()),
        }
    }
}

impl PathSegment {
    /// The source text of the segment: its name, then its arguments.
    pub open spec fn text(&self) -> Seq<char>
        decreases self,
    {
        self.ident@ + match self.arguments {
            PathArguments::Bare => Seq::empty(),
            PathArguments::AngleBracketed(arguments) => "<"@ + arguments_text(
                arguments@,
                arguments@.len() as int,
            ) + ">"@,
            PathArguments::Parenthesized(source) => source@,
        }
    }

    /// Appends the source text to `out`.
    pub fn write(&self, out: &mut String)
        ensures
            final(out)@ == old(out)@ + self.text(),
        decreases self,
    {
        out.append(self.ident.as_str());
        match &self.arguments {
            PathArguments::Bare => {},
            PathArguments::AngleBracketed(arguments) => {
                out.append("<");
                write_arguments(arguments, out);
                out.append(">");
            },
            PathArguments::Parenthesized(source) => out.append(source.as_str()),
        }
    }
}

impl TypePath {
    /// The source text of the path: its segments joined by `::`, after a
    /// leading `::` if it has one.
    pub open spec fn text(&self) -> Seq<char>
        decreases self,
    {
        (if self.leading_colon {
            "::"@
        } else {
            Seq::empty()
        }) + segments_text(self.segments@, self.segments@.len() as int)
    }

    /// Appends the source text to `out`.
    pub fn write(&self, out: &mut String)
        ensures
            final(out)@ == old(out)@ + self.text(),
        decreases self,
    {
        if self.leading_colon {
            out.append("::");
        }
        let ghost base = out@;
        let mut i: usize = 0;
        while i < self.segments.len()
            invariant
                i <= self.segments.len(),
                out@ == base + segments_text(self.segments@, i as int),
            decreases self.segments.len() - i,
        {
            if i > 0 {
                out.append("::");
            }
            self.segments[i].write(out);
            i += 1;
        }
    }
}

impl TypeExpr {
    /// The source text of the type expression.
    pub open spec fn text(&self) -> Seq<char>
        decreases self,
    {
        match self {
            TypeExpr::Path(path) => path.text(),
            TypeExpr::Verbatim(source) => source@,
        }
    }

    /// Appends the source text to `out`.
    pub fn write(&self, out: &mut String)
        ensures
            final(out)@ == old(out)@ + self.text(),
        decreases self,
    {
        match self {
            TypeExpr::Path(path) => path.write(out),
            TypeExpr::Verbatim(source) => out.append(source.as_str()),
        }
    }

    /// The source text of the type expression, as a new string.
    pub fn to_text(&self) -> (source: String)
        ensures
            source@ == self.text(),
    {
        let mut source = String::new();
        self.write(&mut source);
        source
    }
}

} // verus!

//! The debug synthesizer: from a record declaration to the declaration of its
//! formatter.

use crate::annotation::{debug_annotation, inspect_debug};
use crate::diagnostic::{outcome, Diagnostic, DiagnosticView};
use crate::reader::{read_declaration, unsupported_shape};
use crate::syntax::{Declaration, FieldDescriptor, Shape};
use crate::text::{concat, quote_string, string_literal};
use vstd::prelude::*;
use vstd::string::*;

verus! {

/// One field of the formatter: its name, and the format string that its
/// value is rendered through, if its annotation gave one.
#[derive(Debug, PartialEq, Eq)]
pub struct DebugField {
    pub name: String,
    pub format: Option<String>,
}

/// The synthesized formatter of a record: its fields in declaration order.
#[derive(Debug, PartialEq, Eq)]
pub struct DebugDeclaration {
    /// The name of the record.
    pub target: String,
    pub fields: Vec<DebugField>,
}

/// The mathematical value of a [`DebugField`].
pub struct DebugFieldView {
    pub name: Seq<char>,
    pub format: Option<Seq<char>>,
}

/// The mathematical value of a [`DebugDeclaration`].
pub struct DebugDeclarationView {
    pub target: Seq<char>,
    pub fields: Seq<DebugFieldView>,
}

impl View for DebugField {
    type V = DebugFieldView;

    open spec fn view(&self) -> DebugFieldView {
        DebugFieldView { name: self.name@, format: self.format.deep_view() }
    }
}

impl DeepView for DebugField {
    type V = DebugFieldView;

    open spec fn deep_view(&self) -> DebugFieldView {
        self@
    }
}

impl View for DebugDeclaration {
    type V = DebugDeclarationView;

    open spec fn view(&self) -> DebugDeclarationView {
        DebugDeclarationView { target: self.target@, fields: self.fields.deep_view() }
    }
}

impl DeepView for DebugDeclaration {
    type V = DebugDeclarationView;

    open spec fn deep_view(&self) -> DebugDeclarationView {
        self@
    }
}

/// What the first annotation of a field asks of the debug generator. Only the
/// first annotation is looked at; a field without annotations asks nothing.
pub open spec fn debug_of(field: &FieldDescriptor) -> Result<Option<Seq<char>>, DiagnosticView> {
    if field.annotations@.len() == 0 {
        Ok(None)
    } else {
        debug_annotation(field.annotations@[0]@)
    }
}

/// The format string that the first annotation of a field gives, if it gives
/// one.
pub open spec fn debug_format(field: &FieldDescriptor) -> Option<Seq<char>> {
    match debug_of(field) {
        Ok(format) => format,
        Err(_) => None,
    }
}

/// The diagnostic of the first field, from index `from` on, whose annotation
/// is rejected.
pub open spec fn first_debug_rejection(fields: Seq<FieldDescriptor>, from: int) -> Option<
    DiagnosticView,
>
    decreases fields.len() - from,
{
    if from < 0 || from >= fields.len() {
        None
    } else {
        match debug_of(&fields[from]) {
            Err(diagnostic) => Some(diagnostic),
            Ok(_) => first_debug_rejection(fields, from + 1),
        }
    }
}

/// The formatter of the record `name` with `fields`, none of whose
/// annotations is rejected: every field, in declaration order.
pub open spec fn formatter(name: Seq<char>, fields: Seq<FieldDescriptor>) -> DebugDeclarationView {
    DebugDeclarationView {
        target: name,
        fields: Seq::new(
            fields.len(),
            |i: int| DebugFieldView { name: fields[i].name@, format: debug_format(&fields[i]) },
        ),
    }
}

/// What the debug generator makes of a declaration: [`unsupported_shape`]
/// for anything but a record with named fields, the diagnostic of the first
/// field in declaration order whose annotation is rejected, and otherwise the
/// [`formatter`].
pub open spec fn debug_declaration(input: Declaration) -> Result<
    DebugDeclarationView,
    DiagnosticView,
> {
    match input.shape {
        Shape::NamedRecord(fields) => match first_debug_rejection(fields@, 0) {
            Some(diagnostic) => Err(diagnostic),
            None => Ok(formatter(input.name@, fields@)),
        },
        _ => Err(unsupported_shape(input.span)),
    }
}

/// Synthesizes the formatter of a declaration, as [`debug_declaration`] says.
pub fn impl_debug(input: Declaration) -> (result: Result<DebugDeclaration, Diagnostic>)
    ensures
        outcome(result) == debug_declaration(input),
{
    let record = match read_declaration(input) {
        Ok(record) => record,
        Err(diagnostic) => {
            return Err(diagnostic);
        },
    };
    let mut fields: Vec<DebugField> = Vec::new();
    let mut i: usize = 0;
    while i < record.fields.len()
        invariant
            input.shape == Shape::NamedRecord(record.fields),
            i <= record.fields.len(),
            first_debug_rejection(record.fields@, 0) == first_debug_rejection(
                record.fields@,
                i as int,
            ),
            fields.deep_view() == Seq::new(
                i as nat,
                |k: int|
                    DebugFieldView {
                        name: record.fields@[k].name@,
                        format: debug_format(&record.fields@[k]),
                    },
            ),
        decreases record.fields.len() - i,
    {
        let field = &record.fields[i];
        let format = if field.annotations.len() == 0 {
            None
        } else {
            match inspect_debug(&field.annotations[0]) {
                Ok(format) => format,
                Err(diagnostic) => {
                    return Err(diagnostic);
                },
            }
        };
        let ghost before = fields.deep_view();
        let synthesized = DebugField { name: field.name.clone(), format };
        fields.push(synthesized);
        assert(fields.deep_view() =~= before.push(synthesized@));
        i += 1;
    }
    Ok(DebugDeclaration { target: record.name, fields })
}

impl DebugFieldView {
    /// The source text of the rendered value: the field itself, or the field
    /// substituted into the format string.
    pub open spec fn value_source(self) -> Seq<char> {
        match self.format {
            Some(format) => "&format_args!("@ + string_literal(format) + ", &self."@ + self.name
                + ")"@,
            None => "&self."@ + self.name,
        }
    }

    /// The line of `fmt` that renders the field under its name.
    pub open spec fn field_line(self) -> Seq<char> {
        "            .field("@ + string_literal(self.name) + ", "@ + self.value_source() + ")\n"@
    }
}

impl DebugDeclarationView {
    /// The source text of the formatter: an implementation of `Debug` that
    /// renders the record's name and then every field in declaration order.
    pub open spec fn source(self) -> Seq<char> {
        "impl ::std::fmt::Debug for "@ + self.target
            + " {\n    fn fmt(&self, f: &mut ::std::fmt::Formatter<'_>) -> ::std::fmt::Result {\n        f.debug_struct("@
            + string_literal(self.target) + ")\n"@ + concat(
            Seq::new(self.fields.len(), |i: int| self.fields[i].field_line()),
            self.fields.len() as int,
        ) + "            .finish()\n    }\n}\n"@
    }
}

impl DebugField {
    /// Appends [`DebugFieldView::field_line`].
    fn write_line(&self, out: &mut String)
        ensures
            final(out)@ == old(out)@ + self@.field_line(),
    {
        let ghost start = out@;
        out.append("            .field(");
        let name = quote_string(self.name.as_str());
        out.append(name.as_str());
        out.append(", ");
        let ghost head = out@;
        match &self.format {
            Some(format) => {
                out.append("&format_args!(");
                let literal = quote_string(format.as_str());
                out.append(literal.as_str());
                out.append(", &self.");
                out.append(self.name.as_str());
                out.append(")");
            },
            None => {
                out.append("&self.");
                out.append(self.name.as_str());
            },
        }
        assert(out@ =~= head + self@.value_source());
        out.append(")\n");
        assert(out@ =~= start + self@.field_line());
    }
}

impl DebugDeclaration {
    /// Emits the source text of the formatter.
    pub fn emit(&self) -> (source: String)
        ensures
            source@ == self@.source(),
    {
        let ghost lines = Seq::new(self@.fields.len(), |i: int| self@.fields[i].field_line());
        let mut out = String::from_str("impl ::std::fmt::Debug for ");
        out.append(self.target.as_str());
        out.append(
            " {\n    fn fmt(&self, f: &mut ::std::fmt::Formatter<'_>) -> ::std::fmt::Result {\n        f.debug_struct(",
        );
        let target = quote_string(self.target.as_str());
        out.append(target.as_str());
        out.append(")\n");
        let ghost base = out@;
        let mut i: usize = 0;
        while i < self.fields.len()
            invariant
                i <= self.fields.len(),
                lines == Seq::new(self@.fields.len(), |i: int| self@.fields[i].field_line()),
                out@ == base + concat(lines, i as int),
            decreases self.fields.len() - i,
        {
            self.fields[i].write_line(&mut out);
            assert(out@ =~= base + concat(lines, i + 1));
            i += 1;
        }
        out.append("            .finish()\n    }\n}\n");
        assert(out@ =~= self@.source());
        out
    }
}

/// Generates the formatter of a declaration: its source text, or the
/// diagnostic that [`debug_declaration`] gives.
pub fn derive(input: Declaration) -> (result: Result<String, Diagnostic>)
    ensures
        outcome(result) == (match debug_declaration(input) {
            Ok(declaration) => Ok(declaration.source()),
            Err(diagnostic) => Err(diagnostic),
        }),
{
    match impl_debug(input) {
        Ok(declaration) => Ok(declaration.emit()),
        Err(diagnostic) => Err(diagnostic),
    }
}

} // verus!

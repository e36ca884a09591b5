//! A record that comes with the library: a named bit field, rendered with its
//! mask in binary.

use crate::debug::{
    debug_declaration, debug_of, first_debug_rejection, formatter, impl_debug,
    DebugDeclarationView, DebugFieldView,
};
use crate::diagnostic::{DiagnosticView, Position, Span};
use crate::format::{
    closing, digits_end, formatted, literal, number, parse_format, parse_spec, style_of, Template,
};
use crate::formatter::FormatError;
use crate::syntax::{
    Annotation, AnnotationBody, AnnotationBodyView, AnnotationPath, AnnotationPathView,
    AnnotationValue, AnnotationValueView, AnnotationView, Declaration, FieldDescriptor, Shape,
    TypeExpr,
};
use crate::text::joined;
use crate::value::{digits, escaped_text, padded, FormatSpec, Style, Value, ValueView};
use vstd::prelude::*;
use vstd::string::*;

verus! {

/// A named bit field.
///
/// It is declared as
///
/// ```text
/// struct Field {
///     name: &'static str,
///     #[debug = "0b{:08b}"]
///     bitmask: u8,
/// }
/// ```
#[derive(Debug, PartialEq, Eq)]
pub struct Field {
    pub name: &'static str,
    pub bitmask: u8,
}

/// The eight binary digits of `bitmask`.
pub open spec fn mask_text(bitmask: u8) -> Seq<char> {
    padded(Seq::empty(), Seq::empty(), digits(bitmask as nat, 2, false), true, 8)
}

impl Field {
    /// The rendering of the field: its name quoted, its mask as `0b` and
    /// eight binary digits.
    pub open spec fn debug_text(&self) -> Seq<char> {
        "Field { name: "@ + escaped_text(self.name@) + ", bitmask: 0b"@ + mask_text(self.bitmask)
            + " }"@
    }
}

/// The format string of the mask is a template: `0b`, then the value in
/// binary, padded with zeros to eight digits.
pub proof fn lemma_mask_format()
    ensures
        parse_format("0b{:08b}"@) == Some(
            Template {
                prefix: seq!['0', 'b'],
                spec: FormatSpec { alternate: false, zero: true, width: 8, style: Style::Binary },
                suffix: Seq::empty(),
            },
        ),
{
    let format = "0b{:08b}"@;
    reveal_strlit("0b{:08b}");
    assert(format.len() == 8);
    reveal_with_fuel(literal, 4);
    reveal_with_fuel(closing, 6);
    assert(literal(format, 2) == Some((Seq::<char>::empty(), 2int)));
    assert(literal(format, 0) matches Some((prefix, open)) && open == 2 && prefix =~= seq![
        '0',
        'b',
    ]);
    assert(closing(format, 3) == 7);
    let body = format.subrange(3, 7);
    assert(body.len() == 4);
    assert(body[0] == ':' && body[1] == '0' && body[2] == '8' && body[3] == 'b');
    reveal_with_fuel(digits_end, 3);
    reveal_with_fuel(number, 3);
    assert(digits_end(body, 2) == 3);
    assert(number(body, 2, 3) == 8);
    let rest = body.subrange(3, 4);
    assert(rest.len() == 1 && rest[0] == 'b');
    assert(style_of(rest) == Some(Style::Binary));
    assert(parse_spec(body) == Some(
        FormatSpec { alternate: false, zero: true, width: 8, style: Style::Binary },
    ));
    assert(literal(format, 8) == Some((Seq::<char>::empty(), 8int)));
}

/// The format string of the mask.
pub open spec fn mask_format() -> Seq<char> {
    "0b{:08b}"@
}

/// The formatter that the declaration of [`Field`] has.
pub open spec fn field_formatter() -> DebugDeclarationView {
    DebugDeclarationView {
        target: "Field"@,
        fields: seq![
            DebugFieldView { name: "name"@, format: None },
            DebugFieldView { name: "bitmask"@, format: Some(mask_format()) },
        ],
    }
}

/// The formatter renders a field as [`Field::debug_text`] says.
pub proof fn lemma_field_rendering(field: Field)
    ensures
        field_formatter().rendering(
            seq![ValueView::Text(field.name@), ValueView::Unsigned(field.bitmask as u64)],
        ) == Ok::<Seq<char>, FormatError>(field.debug_text()),
{
    let declaration = field_formatter();
    let values = seq![ValueView::Text(field.name@), ValueView::Unsigned(field.bitmask as u64)];
    let entries = declaration.entries(values);
    lemma_mask_format();
    let mask = mask_text(field.bitmask);
    assert(formatted(mask_format(), values[1]) == Some(seq!['0', 'b'] + mask + Seq::<char>::empty()));
    assert(declaration.first_unrendered(values, 2) == 2);
    assert(declaration.first_unrendered(values, 1) == 2);
    assert(declaration.first_unrendered(values, 0) == 2);
    assert(joined(entries, ", "@, 1) == entries[0]);
    assert(joined(entries, ", "@, 2) == entries[0] + ", "@ + entries[1]);
    reveal_strlit(", bitmask: 0b");
    reveal_strlit(", ");
    reveal_strlit("bitmask");
    reveal_strlit(": ");
    reveal_strlit("Field { name: ");
    reveal_strlit("Field");
    reveal_strlit(" { ");
    reveal_strlit("name");
    assert(", bitmask: 0b"@ =~= ", "@ + "bitmask"@ + ": "@ + seq!['0', 'b']);
    assert("Field { name: "@ =~= "Field"@ + " { "@ + "name"@ + ": "@);
    assert(entries[0] == "name"@ + ": "@ + escaped_text(field.name@));
    assert(entries[1] =~= "bitmask"@ + ": "@ + seq!['0', 'b'] + mask);
    assert(declaration.rendering(values)->Ok_0 == "Field"@ + " { "@ + (entries[0] + ", "@
        + entries[1]) + " }"@);
    assert(declaration.rendering(values)->Ok_0 =~= field.debug_text());
}

/// Where the declaration of [`Field`] is said to stand: it is not read from
/// source text.
pub open spec fn nowhere() -> Span {
    Span { start: Position { line: 0, column: 0 }, end: Position { line: 0, column: 0 } }
}

/// Whether `declaration` is the declaration of [`Field`]: a record of the
/// text `name` and the byte `bitmask`, the second with its format string.
pub open spec fn declares_field(declaration: Declaration) -> bool {
    &&& declaration.name@ == "Field"@
    &&& declaration.span == nowhere()
    &&& declaration.shape matches Shape::NamedRecord(fields)
    &&& fields@.len() == 2
    &&& fields@[0].name@ == "name"@
    &&& fields@[0].ty.text() == "&'static str"@
    &&& fields@[0].annotations@.len() == 0
    &&& fields@[1].name@ == "bitmask"@
    &&& fields@[1].ty.text() == "u8"@
    &&& fields@[1].annotations@.len() == 1
    &&& fields@[1].annotations@[0]@ == (AnnotationView {
        path: AnnotationPathView { leading_colon: false, segments: seq!["debug"@] },
        body: AnnotationBodyView::Value(AnnotationValueView::Str(mask_format())),
        span: nowhere(),
    })
}

impl Field {
    /// The declaration of the record.
    pub fn declaration() -> (declaration: Declaration)
        ensures
            declares_field(declaration),
            debug_declaration(declaration) == Ok::<DebugDeclarationView, DiagnosticView>(
                field_formatter(),
            ),
    {
        let nowhere = Span {
            start: Position { line: 0, column: 0 },
            end: Position { line: 0, column: 0 },
        };
        let mut path: Vec<String> = Vec::new();
        path.push(String::from_str("debug"));
        let mut annotations: Vec<Annotation> = Vec::new();
        annotations.push(
            Annotation {
                path: AnnotationPath { leading_colon: false, segments: path },
                body: AnnotationBody::Value(AnnotationValue::Str(String::from_str("0b{:08b}"))),
                span: nowhere,
            },
        );
        let mut fields: Vec<FieldDescriptor> = Vec::new();
        fields.push(
            FieldDescriptor {
                name: String::from_str("name"),
                ty: TypeExpr::Verbatim(String::from_str("&'static str")),
                annotations: Vec::new(),
            },
        );
        fields.push(
            FieldDescriptor {
                name: String::from_str("bitmask"),
                ty: TypeExpr::Verbatim(String::from_str("u8")),
                annotations,
            },
        );
        let declaration = Declaration {
            name: String::from_str("Field"),
            shape: Shape::NamedRecord(fields),
            span: nowhere,
        };
        proof {
            reveal_with_fuel(first_debug_rejection, 3);
            assert(fields@[1].annotations@[0]@.path.segments =~= seq!["debug"@]);
            assert(debug_of(&fields@[0]) == Ok::<Option<Seq<char>>, DiagnosticView>(None));
            assert(debug_of(&fields@[1]) == Ok::<Option<Seq<char>>, DiagnosticView>(
                Some(mask_format()),
            ));
            assert(formatter(declaration.name@, fields@).fields =~= field_formatter().fields);
        }
        declaration
    }

    /// The values of the record's fields, in declaration order.
    pub fn values(&self) -> (values: Vec<Value>)
        ensures
            values.deep_view() == seq![
                ValueView::Text(self.name@),
                ValueView::Unsigned(self.bitmask as u64),
            ],
    {
        let mut values: Vec<Value> = Vec::new();
        values.push(Value::Text(String::from_str(self.name)));
        values.push(Value::Unsigned(self.bitmask as u64));
        assert(values.deep_view() =~= seq![
            ValueView::Text(self.name@),
            ValueView::Unsigned(self.bitmask as u64),
        ]);
        values
    }

    /// Renders the field with the formatter generated from its declaration.
    pub fn debug(&self) -> (text: String)
        ensures
            text@ == self.debug_text(),
    {
        proof {
            lemma_field_rendering(*self);
        }
        // Neither step fails: the declaration is a record with named fields,
        // and the format string of the mask is a template that takes a number.
        match impl_debug(Field::declaration()) {
            Ok(formatter) => match formatter.fmt(&self.values()) {
                Ok(text) => text,
                Err(_) => String::new(),
            },
            Err(_) => String::new(),
        }
    }
}

} // verus!

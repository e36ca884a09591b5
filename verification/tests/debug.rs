use record_derive::debug::{impl_debug, DebugDeclaration, DebugField};
use record_derive::diagnostic::{Diagnostic, Position, Span};
use record_derive::formatter::FormatError;
use record_derive::syntax::{
    Annotation, AnnotationBody, AnnotationPath, AnnotationValue, Declaration, FieldDescriptor,
    Shape, TypeExpr,
};
use record_derive::value::Value;

fn span(line: usize) -> Span {
    Span { start: Position { line, column: 4 }, end: Position { line, column: 24 } }
}

fn debug_value(value: AnnotationValue, line: usize) -> Annotation {
    Annotation {
        path: AnnotationPath { leading_colon: false, segments: vec!["debug".to_string()] },
        body: AnnotationBody::Value(value),
        span: span(line),
    }
}

fn debug_format(format: &str, line: usize) -> Annotation {
    debug_value(AnnotationValue::Str(format.to_string()), line)
}

fn field(name: &str, ty: &str, annotations: Vec<Annotation>) -> FieldDescriptor {
    FieldDescriptor { name: name.to_string(), ty: TypeExpr::Verbatim(ty.to_string()), annotations }
}

fn record(name: &str, fields: Vec<FieldDescriptor>) -> Declaration {
    Declaration { name: name.to_string(), shape: Shape::NamedRecord(fields), span: span(1) }
}

fn bit_field() -> Declaration {
    record(
        "Field",
        vec![
            field("name", "&'static str", vec![]),
            field("bitmask", "u8", vec![debug_format("0b{:08b}", 3)]),
        ],
    )
}

fn formatted_field(name: &str, format: Option<&str>) -> DebugField {
    DebugField { name: name.to_string(), format: format.map(|format| format.to_string()) }
}

#[test]
fn record_gets_its_formatter() {
    assert_eq!(
        impl_debug(bit_field()),
        Ok(DebugDeclaration {
            target: "Field".to_string(),
            fields: vec![
                formatted_field("name", None),
                formatted_field("bitmask", Some("0b{:08b}")),
            ],
        })
    );
}

#[test]
fn other_shapes_get_no_formatter() {
    for shape in [Shape::TupleRecord, Shape::UnitRecord, Shape::Enum, Shape::Union] {
        let input = Declaration { name: "Target".to_string(), shape, span: span(5) };
        assert_eq!(
            impl_debug(input),
            Err(Diagnostic {
                message: "only named-field records are supported".to_string(),
                span: span(5),
            })
        );
    }
}

#[test]
fn first_rejected_debug_annotation_is_reported() {
    let input = record(
        "Field",
        vec![
            field("name", "String", vec![debug_format("{}", 2)]),
            field("bitmask", "u8", vec![debug_value(AnnotationValue::Other, 4)]),
            field("other", "u8", vec![debug_value(AnnotationValue::Other, 6)]),
        ],
    );
    assert_eq!(
        impl_debug(input),
        Err(Diagnostic { message: "expected debug = \"...\"".to_string(), span: span(4) })
    );
}

#[test]
fn only_the_first_debug_annotation_is_inspected() {
    let doc = || Annotation {
        path: AnnotationPath { leading_colon: false, segments: vec!["doc".to_string()] },
        body: AnnotationBody::Value(AnnotationValue::Str("text".to_string())),
        span: span(2),
    };
    let input = record(
        "Field",
        vec![
            field("hidden", "u8", vec![doc(), debug_format("{:x}", 3)]),
            field("ignored", "u8", vec![doc(), debug_value(AnnotationValue::Other, 5)]),
            field("seen", "u8", vec![debug_format("{:x}", 7), doc()]),
        ],
    );
    assert_eq!(
        impl_debug(input).unwrap().fields,
        vec![
            formatted_field("hidden", None),
            formatted_field("ignored", None),
            formatted_field("seen", Some("{:x}")),
        ]
    );
}

#[test]
fn malformed_format_string_is_not_a_generation_error() {
    let input = record("Field", vec![field("bitmask", "u8", vec![debug_format("{:nonsense", 2)])]);
    let declaration = impl_debug(input).unwrap();
    assert_eq!(declaration.fields, vec![formatted_field("bitmask", Some("{:nonsense"))]);
    assert_eq!(
        declaration.fmt(&vec![Value::Unsigned(1)]),
        Err(FormatError::BadFormat { field: 0 })
    );
}

#[test]
fn two_fields_without_annotations_are_rendered_by_default() {
    let declaration = impl_debug(record(
        "Pair",
        vec![field("left", "u8", vec![]), field("right", "String", vec![])],
    ))
    .unwrap();
    assert_eq!(
        declaration.fmt(&vec![Value::Unsigned(10), Value::Text("Hello World".to_string())]),
        Ok("Pair { left: 10, right: \"Hello World\" }".to_string())
    );
}

#[test]
fn annotated_field_is_rendered_through_its_format() {
    let declaration = impl_debug(bit_field()).unwrap();
    assert_eq!(
        declaration.fmt(&vec![Value::Text("F".to_string()), Value::Unsigned(28)]),
        Ok("Field { name: \"F\", bitmask: 0b00011100 }".to_string())
    );
}

#[test]
fn fields_are_rendered_in_declaration_order() {
    let declaration = impl_debug(record(
        "Quad",
        vec![
            field("d", "i64", vec![]),
            field("c", "bool", vec![debug_format("<{}>", 3)]),
            field("b", "u8", vec![debug_format("{:#06x}", 4)]),
            field("a", "String", vec![debug_format("{}", 5)]),
        ],
    ))
    .unwrap();
    assert_eq!(
        declaration.fmt(&vec![
            Value::Signed(-4),
            Value::Bool(true),
            Value::Unsigned(255),
            Value::Text("plain".to_string()),
        ]),
        Ok("Quad { d: -4, c: <true>, b: 0x00ff, a: plain }".to_string())
    );
}

#[test]
fn record_of_one_field_is_rendered_between_braces() {
    let declaration = impl_debug(record("One", vec![field("only", "u8", vec![])])).unwrap();
    assert_eq!(declaration.fmt(&vec![Value::Unsigned(1)]), Ok("One { only: 1 }".to_string()));
}

#[test]
fn record_without_fields_is_rendered_as_its_name() {
    let declaration = impl_debug(record("Empty", vec![])).unwrap();
    assert_eq!(declaration.fmt(&vec![]), Ok("Empty".to_string()));
}

#[test]
fn wrong_number_of_values_is_refused() {
    let declaration = impl_debug(bit_field()).unwrap();
    assert_eq!(declaration.fmt(&vec![]), Err(FormatError::WrongFieldCount));
    assert_eq!(
        declaration.fmt(&vec![Value::Unsigned(1), Value::Unsigned(2), Value::Unsigned(3)]),
        Err(FormatError::WrongFieldCount)
    );
}

#[test]
fn first_field_that_cannot_be_rendered_is_reported() {
    let declaration = impl_debug(record(
        "Three",
        vec![
            field("a", "u8", vec![debug_format("{:x}", 2)]),
            field("b", "String", vec![debug_format("{:x}", 3)]),
            field("c", "u8", vec![debug_format("{", 4)]),
        ],
    ))
    .unwrap();
    assert_eq!(
        declaration.fmt(&vec![
            Value::Unsigned(1),
            Value::Text("x".to_string()),
            Value::Unsigned(3),
        ]),
        Err(FormatError::BadFormat { field: 1 })
    );
    assert_eq!(
        declaration.fmt(&vec![Value::Unsigned(1), Value::Unsigned(2), Value::Unsigned(3)]),
        Err(FormatError::BadFormat { field: 2 })
    );
    assert_eq!(
        declaration.fields[1].render(&Value::Unsigned(255)),
        Some("ff".to_string())
    );
    assert_eq!(declaration.fields[1].render(&Value::Bool(true)), None);
}

const FIELD_SOURCE: &str = "impl ::std::fmt::Debug for Field {
    fn fmt(&self, f: &mut ::std::fmt::Formatter<'_>) -> ::std::fmt::Result {
        f.debug_struct(\"Field\")
            .field(\"name\", &self.name)
            .field(\"bitmask\", &format_args!(\"0b{:08b}\", &self.bitmask))
            .finish()
    }
}
";

#[test]
fn formatter_is_emitted_as_source() {
    assert_eq!(impl_debug(bit_field()).unwrap().emit(), FIELD_SOURCE);
    assert_eq!(record_derive::debug::derive(bit_field()), Ok(FIELD_SOURCE.to_string()));
}

#[test]
fn format_string_is_quoted_in_the_source() {
    let input = record("Quote", vec![field("text", "String", vec![debug_format("\"{}\"\n", 2)])]);
    let source = record_derive::debug::derive(input).unwrap();
    assert!(source.contains(".field(\"text\", &format_args!(\"\\\"{}\\\"\\n\", &self.text))\n"));
    assert!(syn::parse_file(&source).is_ok());
}

#[test]
fn empty_formatter_is_emitted_as_source() {
    let expected = "impl ::std::fmt::Debug for Empty {
    fn fmt(&self, f: &mut ::std::fmt::Formatter<'_>) -> ::std::fmt::Result {
        f.debug_struct(\"Empty\")
            .finish()
    }
}
";
    assert_eq!(record_derive::debug::derive(record("Empty", vec![])), Ok(expected.to_string()));
}

#[test]
fn derive_reports_the_diagnostic() {
    let input = record(
        "Field",
        vec![field("bitmask", "u8", vec![debug_value(AnnotationValue::Other, 3)])],
    );
    assert_eq!(
        record_derive::debug::derive(input),
        Err(Diagnostic { message: "expected debug = \"...\"".to_string(), span: span(3) })
    );
    let shapeless = Declaration { name: "U".to_string(), shape: Shape::Union, span: span(8) };
    assert_eq!(
        record_derive::debug::derive(shapeless),
        Err(Diagnostic {
            message: "only named-field records are supported".to_string(),
            span: span(8),
        })
    );
}

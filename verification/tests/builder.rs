use record_derive::builder::{
    builder_init_field, derive_builder, impl_builder, impl_builder_method, Accessor, Action,
    BuilderDeclaration, BuilderField, Kind,
};
use record_derive::diagnostic::{Diagnostic, Position, Span};
use record_derive::syntax::{
    Annotation, AnnotationBody, AnnotationPath, Declaration, FieldDescriptor, GenericArgument,
    PathArguments, PathSegment, Shape, TypeExpr, TypePath,
};

fn span(line: usize) -> Span {
    Span { start: Position { line, column: 4 }, end: Position { line, column: 30 } }
}

fn named(name: &str) -> TypeExpr {
    TypeExpr::Path(TypePath {
        leading_colon: false,
        segments: vec![PathSegment { ident: name.to_string(), arguments: PathArguments::Bare }],
    })
}

fn wrapped(name: &str, inner: TypeExpr) -> TypeExpr {
    TypeExpr::Path(TypePath {
        leading_colon: false,
        segments: vec![PathSegment {
            ident: name.to_string(),
            arguments: PathArguments::AngleBracketed(vec![GenericArgument::Type(inner)]),
        }],
    })
}

fn builder_list(tokens: &str, line: usize) -> Annotation {
    Annotation {
        path: AnnotationPath { leading_colon: false, segments: vec!["builder".to_string()] },
        body: AnnotationBody::List(tokens.to_string()),
        span: span(line),
    }
}

fn field(name: &str, ty: TypeExpr, annotations: Vec<Annotation>) -> FieldDescriptor {
    FieldDescriptor { name: name.to_string(), ty, annotations }
}

fn record(name: &str, fields: Vec<FieldDescriptor>) -> Declaration {
    Declaration { name: name.to_string(), shape: Shape::NamedRecord(fields), span: span(1) }
}

fn command() -> Declaration {
    record(
        "Command",
        vec![
            field("executable", named("String"), vec![]),
            field(
                "args",
                wrapped("Vec", named("String")),
                vec![builder_list("each = \"arg\"", 4)],
            ),
            field("env", wrapped("Vec", named("String")), vec![builder_list("each = \"env\"", 6)]),
            field("current_dir", wrapped("Option", named("String")), vec![]),
        ],
    )
}

fn accessor(name: &str, field: usize, parameter: &str, action: Action) -> Accessor {
    Accessor { name: name.to_string(), field, parameter: parameter.to_string(), action }
}

fn companion_field(name: &str, ty: &str, kind: Kind) -> BuilderField {
    BuilderField { name: name.to_string(), ty: ty.to_string(), kind }
}

#[test]
fn command_gets_its_companion() {
    let expected = BuilderDeclaration {
        target: "Command".to_string(),
        name: "CommandBuilder".to_string(),
        fields: vec![
            companion_field("executable", "String", Kind::Plain),
            companion_field("args", "Vec<String>", Kind::Repeated),
            companion_field("env", "Vec<String>", Kind::Repeated),
            companion_field("current_dir", "Option<String>", Kind::Optional),
        ],
        accessors: vec![
            accessor("executable", 0, "String", Action::Assign),
            accessor("args", 1, "Vec<String>", Action::Replace),
            accessor("arg", 1, "String", Action::Push),
            accessor("env", 2, "Vec<String>", Action::Replace),
            accessor("env", 2, "String", Action::Push),
            accessor("current_dir", 3, "String", Action::AssignSome),
        ],
    };
    let declaration = impl_builder(command()).unwrap();
    assert_eq!(declaration, expected);
    assert!(declaration.is_well_formed());
}

#[test]
fn record_without_fields_gets_an_empty_companion() {
    assert_eq!(
        impl_builder(record("Unit", vec![])),
        Ok(BuilderDeclaration {
            target: "Unit".to_string(),
            name: "UnitBuilder".to_string(),
            fields: vec![],
            accessors: vec![],
        })
    );
}

#[test]
fn other_shapes_get_no_companion() {
    for shape in [Shape::TupleRecord, Shape::UnitRecord, Shape::Enum, Shape::Union] {
        let input = Declaration { name: "Target".to_string(), shape, span: span(2) };
        assert_eq!(
            impl_builder(input),
            Err(Diagnostic {
                message: "only named-field records are supported".to_string(),
                span: span(2),
            })
        );
    }
}

#[test]
fn first_rejected_annotation_is_reported() {
    let input = record(
        "Command",
        vec![
            field("executable", named("String"), vec![builder_list("each = \"x\"", 2)]),
            field("args", wrapped("Vec", named("String")), vec![builder_list("each = 5", 4)]),
            field(
                "env",
                wrapped("Vec", named("String")),
                vec![builder_list("each = \"x\", foo = \"y\"", 6)],
            ),
        ],
    );
    assert_eq!(
        impl_builder(input),
        Err(Diagnostic {
            message: "expected `builder(each = \"...\")`".to_string(),
            span: span(4),
        })
    );
}

#[test]
fn annotation_is_checked_on_fields_of_every_kind() {
    let input = record("Job", vec![field("name", named("String"), vec![builder_list("each", 2)])]);
    assert_eq!(
        impl_builder(input),
        Err(Diagnostic {
            message: "expected `builder(each = \"...\")`".to_string(),
            span: span(2),
        })
    );
}

#[test]
fn only_the_first_annotation_is_inspected() {
    let doc = || Annotation {
        path: AnnotationPath { leading_colon: false, segments: vec!["doc".to_string()] },
        body: AnnotationBody::Bare,
        span: span(2),
    };
    let hidden = record(
        "Job",
        vec![field(
            "tags",
            wrapped("Vec", named("String")),
            vec![doc(), builder_list("each = \"tag\"", 3)],
        )],
    );
    assert_eq!(
        impl_builder(hidden).unwrap().accessors,
        vec![accessor("tags", 0, "Vec<String>", Action::Replace)]
    );
    let malformed_second = record(
        "Job",
        vec![field(
            "tags",
            wrapped("Vec", named("String")),
            vec![doc(), builder_list("each = 5", 3)],
        )],
    );
    assert!(impl_builder(malformed_second).is_ok());
    let first = record(
        "Job",
        vec![field(
            "tags",
            wrapped("Vec", named("String")),
            vec![builder_list("each = \"tag\"", 3), doc()],
        )],
    );
    assert_eq!(
        impl_builder(first).unwrap().accessors,
        vec![
            accessor("tags", 0, "Vec<String>", Action::Replace),
            accessor("tag", 0, "String", Action::Push),
        ]
    );
}

#[test]
fn accessor_name_is_ignored_on_fields_that_are_not_repeated() {
    let input = record(
        "Job",
        vec![
            field("name", named("String"), vec![builder_list("each = \"letter\"", 2)]),
            field(
                "note",
                wrapped("Option", named("String")),
                vec![builder_list("each = \"word\"", 4)],
            ),
        ],
    );
    assert_eq!(
        impl_builder(input).unwrap().accessors,
        vec![
            accessor("name", 0, "String", Action::Assign),
            accessor("note", 1, "String", Action::AssignSome),
        ]
    );
}

#[test]
fn companion_field_keeps_name_and_type() {
    let plain = field("name", named("String"), vec![]);
    assert_eq!(builder_init_field(&plain), companion_field("name", "String", Kind::Plain));
    let optional = field("note", wrapped("Option", named("String")), vec![]);
    assert_eq!(
        builder_init_field(&optional),
        companion_field("note", "Option<String>", Kind::Optional)
    );
    let repeated = field("tags", wrapped("Vec", named("u8")), vec![]);
    assert_eq!(builder_init_field(&repeated), companion_field("tags", "Vec<u8>", Kind::Repeated));
}

#[test]
fn accessors_are_appended_for_one_field() {
    let mut accessors = vec![accessor("name", 0, "String", Action::Assign)];
    let repeated = field("tags", wrapped("Vec", named("u8")), vec![]);
    impl_builder_method(1, &repeated, Some("tag".to_string()), &mut accessors);
    impl_builder_method(2, &repeated, None, &mut accessors);
    let optional = field("note", wrapped("Option", named("String")), vec![]);
    impl_builder_method(3, &optional, Some("word".to_string()), &mut accessors);
    assert_eq!(
        accessors,
        vec![
            accessor("name", 0, "String", Action::Assign),
            accessor("tags", 1, "Vec<u8>", Action::Replace),
            accessor("tag", 1, "u8", Action::Push),
            accessor("tags", 2, "Vec<u8>", Action::Replace),
            accessor("note", 3, "String", Action::AssignSome),
        ]
    );
}

#[test]
fn ill_formed_declarations_are_recognized() {
    let out_of_range = BuilderDeclaration {
        target: "Job".to_string(),
        name: "JobBuilder".to_string(),
        fields: vec![companion_field("name", "String", Kind::Plain)],
        accessors: vec![accessor("name", 1, "String", Action::Assign)],
    };
    assert!(!out_of_range.is_well_formed());
    let wrong_kind = BuilderDeclaration {
        target: "Job".to_string(),
        name: "JobBuilder".to_string(),
        fields: vec![companion_field("name", "String", Kind::Plain)],
        accessors: vec![accessor("letter", 0, "char", Action::Push)],
    };
    assert!(!wrong_kind.is_well_formed());
}

const JOB_SOURCE: &str = "struct JobBuilder {
    name: ::core::option::Option<String>,
    tags: ::core::option::Option<Vec<String>>,
    note: ::core::option::Option<Option<String>>,
}

impl JobBuilder {
    fn name(&mut self, name: String) -> &mut Self {
        self.name = ::core::option::Option::Some(name);
        self
    }

    fn tags(&mut self, tags: Vec<String>) -> &mut Self {
        self.tags = ::core::option::Option::Some(tags);
        self
    }

    fn tag(&mut self, tag: String) -> &mut Self {
        self.tags.as_mut().map(|items| items.push(tag));
        self
    }

    fn note(&mut self, note: String) -> &mut Self {
        self.note = ::core::option::Option::Some(::core::option::Option::Some(note));
        self
    }

    fn build(&mut self) -> ::core::result::Result<Job, ::std::boxed::Box<dyn ::std::error::Error>> {
        ::core::result::Result::Ok(Job {
            name: self.name.take().ok_or_else(|| ::std::format!(\"field {} is not provided\", ::core::stringify!(name)))?,
            tags: self.tags.take().ok_or_else(|| ::std::format!(\"field {} is not provided\", ::core::stringify!(tags)))?,
            note: self.note.take().ok_or_else(|| ::std::format!(\"field {} is not provided\", ::core::stringify!(note)))?,
        })
    }
}

impl Job {
    fn builder() -> JobBuilder {
        JobBuilder {
            name: ::core::option::Option::None,
            tags: ::core::option::Option::Some(::std::vec::Vec::new()),
            note: ::core::option::Option::Some(::core::option::Option::None),
        }
    }
}
";

fn job() -> Declaration {
    record(
        "Job",
        vec![
            field("name", named("String"), vec![]),
            field(
                "tags",
                wrapped("Vec", named("String")),
                vec![builder_list("each = \"tag\"", 3)],
            ),
            field("note", wrapped("Option", named("String")), vec![]),
        ],
    )
}

#[test]
fn companion_is_emitted_as_source() {
    assert_eq!(impl_builder(job()).unwrap().emit(), JOB_SOURCE);
    assert_eq!(derive_builder(job()), Ok(JOB_SOURCE.to_string()));
}

#[test]
fn empty_companion_is_emitted_as_source() {
    let expected = "struct UnitBuilder {
}

impl UnitBuilder {
    fn build(&mut self) -> ::core::result::Result<Unit, ::std::boxed::Box<dyn ::std::error::Error>> {
        ::core::result::Result::Ok(Unit {
        })
    }
}

impl Unit {
    fn builder() -> UnitBuilder {
        UnitBuilder {
        }
    }
}
";
    assert_eq!(derive_builder(record("Unit", vec![])), Ok(expected.to_string()));
}

#[test]
fn emitted_companion_is_rust() {
    let source = derive_builder(job()).unwrap();
    let file = syn::parse_file(&source).unwrap();
    assert_eq!(file.items.len(), 3);
}

#[test]
fn derive_builder_reports_the_diagnostic() {
    let input = record(
        "Job",
        vec![field("tags", wrapped("Vec", named("String")), vec![builder_list("each = 5", 3)])],
    );
    assert_eq!(
        derive_builder(input),
        Err(Diagnostic {
            message: "expected `builder(each = \"...\")`".to_string(),
            span: span(3),
        })
    );
    let shapeless = Declaration { name: "E".to_string(), shape: Shape::Enum, span: span(9) };
    assert_eq!(
        derive_builder(shapeless),
        Err(Diagnostic {
            message: "only named-field records are supported".to_string(),
            span: span(9),
        })
    );
}

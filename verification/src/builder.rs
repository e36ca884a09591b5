//! The builder synthesizer: from a record declaration to the declaration of
//! its companion builder.

use crate::annotation::{each_annotation, inspect_each};
use crate::classify::{determine_field_type, field_kind, FieldKind};
use crate::diagnostic::{outcome, Diagnostic, DiagnosticView};
use crate::reader::{read_declaration, unsupported_shape};
use crate::syntax::{Declaration, FieldDescriptor, Shape, TypeExpr};
use crate::text::concat;
use vstd::prelude::*;
use vstd::string::*;

verus! {

/// The kind of a field, without the types.
#[derive(Clone, Copy, Debug, PartialEq, Eq, Structural)]
pub enum Kind {
    Plain,
    Optional,
    Repeated,
}

/// One field of the companion. Its slot holds `Option<ty>` and starts out as
/// its kind says: absent for a plain field, present and holding nothing for an
/// optional one, present and holding an empty list for a repeated one.
#[derive(Debug, PartialEq, Eq)]
pub struct BuilderField {
    pub name: String,
    /// The source text of the declared type.
    pub ty: String,
    pub kind: Kind,
}

/// What an accessor does with its argument.
#[derive(Clone, Copy, Debug, PartialEq, Eq, Structural)]
pub enum Action {
    /// Stores the argument as the value of a plain field.
    Assign,
    /// Stores the argument as the present value of an optional field.
    AssignSome,
    /// Stores the argument, a whole list, as the list of a repeated field.
    Replace,
    /// Appends the argument to the list of a repeated field.
    Push,
}

/// One accessor of the companion.
#[derive(Debug, PartialEq, Eq)]
pub struct Accessor {
    pub name: String,
    /// The index of the field that the accessor writes.
    pub field: usize,
    /// The source text of the parameter's type.
    pub parameter: String,
    pub action: Action,
}

/// The synthesized companion of a record: its fields in declaration order and
/// its accessors in the order of the fields they write.
#[derive(Debug, PartialEq, Eq)]
pub struct BuilderDeclaration {
    /// The name of the record that the companion builds.
    pub target: String,
    /// The name of the companion.
    pub name: String,
    pub fields: Vec<BuilderField>,
    pub accessors: Vec<Accessor>,
}

/// The mathematical value of a [`BuilderField`].
pub struct BuilderFieldView {
    pub name: Seq<char>,
    pub ty: Seq<char>,
    pub kind: Kind,
}

/// The mathematical value of an [`Accessor`].
pub struct AccessorView {
    pub name: Seq<char>,
    pub field: int,
    pub parameter: Seq<char>,
    pub action: Action,
}

/// The mathematical value of a [`BuilderDeclaration`].
pub struct BuilderDeclarationView {
    pub target: Seq<char>,
    pub name: Seq<char>,
    pub fields: Seq<BuilderFieldView>,
    pub accessors: Seq<AccessorView>,
}

impl View for BuilderField {
    type V = BuilderFieldView;

    open spec fn view(&self) -> BuilderFieldView {
        BuilderFieldView { name: self.name@, ty: self.ty@, kind: self.kind }
    }
}

impl DeepView for BuilderField {
    type V = BuilderFieldView;

    open spec fn deep_view(&self) -> BuilderFieldView {
        self@
    }
}

impl View for Accessor {
    type V = AccessorView;

    open spec fn view(&self) -> AccessorView {
        AccessorView {
            name: self.name@,
            field: self.field as int,
            parameter: self.parameter@,
            action: self.action,
        }
    }
}

impl DeepView for Accessor {
    type V = AccessorView;

    open spec fn deep_view(&self) -> AccessorView {
        self@
    }
}

impl View for BuilderDeclaration {
    type V = BuilderDeclarationView;

    open spec fn view(&self) -> BuilderDeclarationView {
        BuilderDeclarationView {
            target: self.target@,
            name: self.name@,
            fields: self.fields.deep_view(),
            accessors: self.accessors.deep_view(),
        }
    }
}

impl DeepView for BuilderDeclaration {
    type V = BuilderDeclarationView;

    open spec fn deep_view(&self) -> BuilderDeclarationView {
        self@
    }
}

impl Action {
    /// Whether an accessor with this action can write a field of `kind`.
    pub open spec fn fits(self, kind: Kind) -> bool {
        match self {
            Action::Assign => kind == Kind::Plain,
            Action::AssignSome => kind == Kind::Optional,
            Action::Replace => kind == Kind::Repeated,
            Action::Push => kind == Kind::Repeated,
        }
    }

    /// Whether an accessor with this action takes a whole list rather than
    /// one value.
    pub open spec fn takes_list(self) -> bool {
        self == Action::Replace
    }
}

impl BuilderDeclarationView {
    /// Every accessor writes a field that exists, of the kind its action is
    /// for.
    pub open spec fn wf(self) -> bool {
        forall|a: int|
            0 <= a < self.accessors.len() ==> {
                &&& 0 <= (#[trigger] self.accessors[a]).field < self.fields.len()
                &&& self.accessors[a].action.fits(self.fields[self.accessors[a].field].kind)
            }
    }
}

/// The kind of a field declared with type `ty`.
pub open spec fn kind_of(ty: &TypeExpr) -> Kind {
    match field_kind(ty) {
        FieldKind::Plain(_) => Kind::Plain,
        FieldKind::Optional(_) => Kind::Optional,
        FieldKind::Repeated(_) => Kind::Repeated,
    }
}

/// The companion field of a record field: same name, same declared type.
pub open spec fn companion_field(field: &FieldDescriptor) -> BuilderFieldView {
    BuilderFieldView { name: field.name@, ty: field.ty.text(), kind: kind_of(&field.ty) }
}

/// The accessors of the field at `index`, given the per-element accessor name
/// that its annotation asked for, if any.
///
/// A plain field has one accessor, under the field's name, that takes the
/// declared type. An optional field has one that takes the inner type. A
/// repeated field has one that takes the whole list and, where a name was
/// asked for, a second one under that name that takes one element. On a field
/// that is not repeated the name is ignored.
pub open spec fn accessors_for(index: int, field: &FieldDescriptor, each: Option<Seq<char>>) -> Seq<
    AccessorView,
> {
    match field_kind(&field.ty) {
        FieldKind::Plain(_) => seq![
            AccessorView {
                name: field.name@,
                field: index,
                parameter: field.ty.text(),
                action: Action::Assign,
            },
        ],
        FieldKind::Optional(inner) => seq![
            AccessorView {
                name: field.name@,
                field: index,
                parameter: inner.text(),
                action: Action::AssignSome,
            },
        ],
        FieldKind::Repeated(inner) => {
            let whole = AccessorView {
                name: field.name@,
                field: index,
                parameter: field.ty.text(),
                action: Action::Replace,
            };
            match each {
                Some(name) => seq![
                    whole,
                    AccessorView {
                        name,
                        field: index,
                        parameter: inner.text(),
                        action: Action::Push,
                    },
                ],
                None => seq![whole],
            }
        },
    }
}

/// What the first annotation of a field asks of the builder generator. Only
/// the first annotation is looked at; a field without annotations asks
/// nothing.
pub open spec fn each_of(field: &FieldDescriptor) -> Result<Option<Seq<char>>, DiagnosticView> {
    if field.annotations@.len() == 0 {
        Ok(None)
    } else {
        each_annotation(field.annotations@[0]@)
    }
}

/// The diagnostic of the first field, from index `from` on, whose annotation
/// is rejected.
pub open spec fn first_rejection(fields: Seq<FieldDescriptor>, from: int) -> Option<
    DiagnosticView,
>
    decreases fields.len() - from,
{
    if from < 0 || from >= fields.len() {
        None
    } else {
        match each_of(&fields[from]) {
            Err(diagnostic) => Some(diagnostic),
            Ok(_) => first_rejection(fields, from + 1),
        }
    }
}

/// The per-element accessor name that the first annotation of a field asks
/// for, if it asks for one.
pub open spec fn each_name(field: &FieldDescriptor) -> Option<Seq<char>> {
    match each_of(field) {
        Ok(each) => each,
        Err(_) => None,
    }
}

/// The accessors of the first `n` fields, field by field.
pub open spec fn accessors_of(fields: Seq<FieldDescriptor>, n: int) -> Seq<AccessorView>
    decreases n,
{
    if n <= 0 || n > fields.len() {
        Seq::empty()
    } else {
        accessors_of(fields, n - 1) + accessors_for(
            n - 1,
            &fields[n - 1],
            each_name(&fields[n - 1]),
        )
    }
}

/// The index of the first accessor of the field at `index`: the number of
/// accessors that the fields before it have.
pub open spec fn accessor_base(fields: Seq<FieldDescriptor>, index: int) -> int {
    accessors_of(fields, index).len() as int
}

/// The companion of the record `name` with `fields`, none of whose
/// annotations is rejected: it is named `name` followed by `Builder`.
pub open spec fn companion(
    name: Seq<char>,
    fields: Seq<FieldDescriptor>,
) -> BuilderDeclarationView {
    BuilderDeclarationView {
        target: name,
        name: name + "Builder"@,
        fields: Seq::new(fields.len(), |i: int| companion_field(&fields[i])),
        accessors: accessors_of(fields, fields.len() as int),
    }
}

/// What the builder generator makes of a declaration: [`unsupported_shape`]
/// for anything but a record with named fields, the diagnostic of the first
/// field in declaration order whose annotation is rejected, and otherwise the
/// [`companion`].
pub open spec fn builder_declaration(input: Declaration) -> Result<
    BuilderDeclarationView,
    DiagnosticView,
> {
    match input.shape {
        Shape::NamedRecord(fields) => match first_rejection(fields@, 0) {
            Some(diagnostic) => Err(diagnostic),
            None => Ok(companion(input.name@, fields@)),
        },
        _ => Err(unsupported_shape(input.span)),
    }
}

/// Every accessor among those of the first `n` fields writes one of those
/// fields, and its action fits the field's kind.
pub proof fn lemma_accessors_fit(fields: Seq<FieldDescriptor>, n: int)
    requires
        0 <= n <= fields.len(),
    ensures
        forall|a: int|
            0 <= a < accessors_of(fields, n).len() ==> {
                &&& 0 <= (#[trigger] accessors_of(fields, n)[a]).field < n
                &&& accessors_of(fields, n)[a].action.fits(
                    kind_of(&fields[accessors_of(fields, n)[a].field].ty),
                )
            },
    decreases n,
{
    if n > 0 {
        lemma_accessors_fit(fields, n - 1);
    }
}

/// The accessors of the field at `index` stand together among the accessors
/// of the first `n` fields, from [`accessor_base`] on.
pub proof fn lemma_accessors_at(fields: Seq<FieldDescriptor>, n: int, index: int)
    requires
        0 <= index < n <= fields.len(),
    ensures
        accessor_base(fields, index) + accessors_for(
            index,
            &fields[index],
            each_name(&fields[index]),
        ).len() <= accessors_of(fields, n).len(),
        forall|k: int|
            0 <= k < accessors_for(index, &fields[index], each_name(&fields[index])).len()
                ==> #[trigger] accessors_of(fields, n)[accessor_base(fields, index) + k]
                == accessors_for(index, &fields[index], each_name(&fields[index]))[k],
    decreases n,
{
    if n > index + 1 {
        lemma_accessors_at(fields, n - 1, index);
    }
}

/// A record whose first `n` fields are all plain has one accessor per field
/// among them, at the field's own index.
pub proof fn lemma_plain_accessors(fields: Seq<FieldDescriptor>, n: int)
    requires
        0 <= n <= fields.len(),
        forall|i: int| 0 <= i < n ==> kind_of(&#[trigger] fields[i].ty) == Kind::Plain,
    ensures
        accessors_of(fields, n).len() == n,
        forall|i: int|
            0 <= i < n ==> (#[trigger] accessors_of(fields, n)[i]).field == i && accessors_of(
                fields,
                n,
            )[i].action == Action::Assign && accessors_of(fields, n)[i].name == fields[i].name@,
    decreases n,
{
    if n > 0 {
        lemma_plain_accessors(fields, n - 1);
    }
}

/// Every synthesized companion is well formed.
pub proof fn lemma_companion_wf(name: Seq<char>, fields: Seq<FieldDescriptor>)
    ensures
        companion(name, fields).wf(),
{
    lemma_accessors_fit(fields, fields.len() as int);
}

/// Synthesizes the companion field of a record field.
pub fn builder_init_field(field: &FieldDescriptor) -> (companion: BuilderField)
    ensures
        companion@ == companion_field(field),
{
    let kind = match determine_field_type(&field.ty) {
        FieldKind::Plain(_) => Kind::Plain,
        FieldKind::Optional(_) => Kind::Optional,
        FieldKind::Repeated(_) => Kind::Repeated,
    };
    BuilderField { name: field.name.clone(), ty: field.ty.to_text(), kind }
}

/// Synthesizes the accessors of the field at `index` and appends them to
/// `accessors`, as [`accessors_for`] says.
pub fn impl_builder_method(
    index: usize,
    field: &FieldDescriptor,
    each: Option<String>,
    accessors: &mut Vec<Accessor>,
)
    ensures
        final(accessors).deep_view() == old(accessors).deep_view() + accessors_for(
            index as int,
            field,
            each.deep_view(),
        ),
{
    let ghost before = accessors.deep_view();
    match determine_field_type(&field.ty) {
        FieldKind::Optional(inner) => {
            let accessor = Accessor {
                name: field.name.clone(),
                field: index,
                parameter: inner.to_text(),
                action: Action::AssignSome,
            };
            accessors.push(accessor);
            assert(accessors.deep_view() =~= before + seq![accessor@]);
        },
        FieldKind::Repeated(inner) => {
            let whole = Accessor {
                name: field.name.clone(),
                field: index,
                parameter: field.ty.to_text(),
                action: Action::Replace,
            };
            accessors.push(whole);
            assert(accessors.deep_view() =~= before + seq![whole@]);
            if let Some(name) = each {
                let element = Accessor {
                    name,
                    field: index,
                    parameter: inner.to_text(),
                    action: Action::Push,
                };
                accessors.push(element);
                assert(accessors.deep_view() =~= before + seq![whole@, element@]);
            }
        },
        FieldKind::Plain(_) => {
            let accessor = Accessor {
                name: field.name.clone(),
                field: index,
                parameter: field.ty.to_text(),
                action: Action::Assign,
            };
            accessors.push(accessor);
            assert(accessors.deep_view() =~= before + seq![accessor@]);
        },
    }
}

/// Synthesizes the companion builder of a declaration, as
/// [`builder_declaration`] says.
pub fn impl_builder(input: Declaration) -> (result: Result<BuilderDeclaration, Diagnostic>)
    ensures
        outcome(result) == builder_declaration(input),
        result matches Ok(declaration) ==> declaration@.wf(),
{
    let record = match read_declaration(input) {
        Ok(record) => record,
        Err(diagnostic) => {
            return Err(diagnostic);
        },
    };
    let mut name = record.name.clone();
    name.append("Builder");
    let mut fields: Vec<BuilderField> = Vec::new();
    let mut accessors: Vec<Accessor> = Vec::new();
    let mut i: usize = 0;
    while i < record.fields.len()
        invariant
            input.shape == Shape::NamedRecord(record.fields),
            i <= record.fields.len(),
            first_rejection(record.fields@, 0) == first_rejection(record.fields@, i as int),
            fields.deep_view() == Seq::new(
                i as nat,
                |k: int| companion_field(&record.fields@[k]),
            ),
            accessors.deep_view() == accessors_of(record.fields@, i as int),
        decreases record.fields.len() - i,
    {
        let field = &record.fields[i];
        let each = if field.annotations.len() == 0 {
            None
        } else {
            match inspect_each(&field.annotations[0]) {
                Ok(each) => each,
                Err(diagnostic) => {
                    return Err(diagnostic);
                },
            }
        };
        let ghost old_fields = fields.deep_view();
        let companion = builder_init_field(field);
        fields.push(companion);
        assert(fields.deep_view() =~= old_fields.push(companion_field(field)));
        impl_builder_method(i, field, each, &mut accessors);
        i += 1;
    }
    proof {
        lemma_companion_wf(record.name@, record.fields@);
    }
    Ok(BuilderDeclaration { target: record.name, name, fields, accessors })
}

impl Kind {
    /// The source text of the value that a slot of this kind starts out with.
    pub open spec fn initial_source(self) -> Seq<char> {
        match self {
            Kind::Plain => "::core::option::Option::None"@,
            Kind::Optional => "::core::option::Option::Some(::core::option::Option::None)"@,
            Kind::Repeated => "::core::option::Option::Some(::std::vec::Vec::new())"@,
        }
    }
}

impl Action {
    /// The source text of the statement that an accessor named `name` runs
    /// on the field named `field`.
    pub open spec fn statement(self, name: Seq<char>, field: Seq<char>) -> Seq<char> {
        match self {
            Action::Assign | Action::Replace => "self."@ + field + " = ::core::option::Option::Some("@
                + name + ");"@,
            Action::AssignSome => "self."@ + field
                + " = ::core::option::Option::Some(::core::option::Option::Some("@ + name + "));"@,
            Action::Push => "self."@ + field + ".as_mut().map(|items| items.push("@ + name + "));"@,
        }
    }
}

impl BuilderFieldView {
    /// The field of the companion: a slot for the declared type.
    pub open spec fn slot_source(self) -> Seq<char> {
        "    "@ + self.name + ": ::core::option::Option<"@ + self.ty + ">,\n"@
    }

    /// The line of `builder` that sets the slot to what it starts out with.
    pub open spec fn initial_line(self) -> Seq<char> {
        "            "@ + self.name + ": "@ + self.kind.initial_source() + ",\n"@
    }

    /// The line of `build` that takes the value out of the slot, or fails
    /// because the field is not provided.
    pub open spec fn take_line(self) -> Seq<char> {
        "            "@ + self.name + ": self."@ + self.name
            + ".take().ok_or_else(|| ::std::format!(\"field {} is not provided\", ::core::stringify!("@
            + self.name + ")))?,\n"@
    }
}

impl BuilderDeclarationView {
    /// The name of the field at `index`; empty where there is no such field.
    pub open spec fn field_name(self, index: int) -> Seq<char> {
        if 0 <= index < self.fields.len() {
            self.fields[index].name
        } else {
            Seq::empty()
        }
    }

    /// The method of the companion for one accessor: it takes the argument
    /// under the accessor's own name and hands the builder back.
    pub open spec fn accessor_source(self, accessor: AccessorView) -> Seq<char> {
        "    fn "@ + accessor.name + "(&mut self, "@ + accessor.name + ": "@ + accessor.parameter
            + ") -> &mut Self {\n        "@ + accessor.action.statement(
            accessor.name,
            self.field_name(accessor.field),
        ) + "\n        self\n    }\n\n"@
    }

    /// The source text of the companion: the type with one slot per field,
    /// its accessors and its validating `build`, and `builder` on the record.
    pub open spec fn source(self) -> Seq<char> {
        "struct "@ + self.name + " {\n"@ + concat(
            Seq::new(self.fields.len(), |i: int| self.fields[i].slot_source()),
            self.fields.len() as int,
        ) + "}\n\nimpl "@ + self.name + " {\n"@ + concat(
            Seq::new(self.accessors.len(), |a: int| self.accessor_source(self.accessors[a])),
            self.accessors.len() as int,
        ) + "    fn build(&mut self) -> ::core::result::Result<"@ + self.target
            + ", ::std::boxed::Box<dyn ::std::error::Error>> {\n        ::core::result::Result::Ok("@
            + self.target + " {\n"@ + concat(
            Seq::new(self.fields.len(), |i: int| self.fields[i].take_line()),
            self.fields.len() as int,
        ) + "        })\n    }\n}\n\nimpl "@ + self.target + " {\n    fn builder() -> "@ + self.name
            + " {\n        "@ + self.name + " {\n"@ + concat(
            Seq::new(self.fields.len(), |i: int| self.fields[i].initial_line()),
            self.fields.len() as int,
        ) + "        }\n    }\n}\n"@
    }
}

impl BuilderField {
    /// Appends [`BuilderFieldView::slot_source`].
    fn write_slot(&self, out: &mut String)
        ensures
            final(out)@ == old(out)@ + self@.slot_source(),
    {
        let ghost start = out@;
        out.append("    ");
        out.append(self.name.as_str());
        out.append(": ::core::option::Option<");
        out.append(self.ty.as_str());
        out.append(">,\n");
        assert(out@ =~= start + self@.slot_source());
    }

    /// Appends [`BuilderFieldView::initial_line`].
    fn write_initial(&self, out: &mut String)
        ensures
            final(out)@ == old(out)@ + self@.initial_line(),
    {
        let ghost start = out@;
        out.append("            ");
        out.append(self.name.as_str());
        out.append(": ");
        match self.kind {
            Kind::Plain => out.append("::core::option::Option::None"),
            Kind::Optional => out.append(
                "::core::option::Option::Some(::core::option::Option::None)",
            ),
            Kind::Repeated => out.append("::core::option::Option::Some(::std::vec::Vec::new())"),
        }
        out.append(",\n");
        assert(out@ =~= start + self@.initial_line());
    }

    /// Appends [`BuilderFieldView::take_line`].
    fn write_take(&self, out: &mut String)
        ensures
            final(out)@ == old(out)@ + self@.take_line(),
    {
        let ghost start = out@;
        out.append("            ");
        out.append(self.name.as_str());
        out.append(": self.");
        out.append(self.name.as_str());
        out.append(
            ".take().ok_or_else(|| ::std::format!(\"field {} is not provided\", ::core::stringify!(",
        );
        out.append(self.name.as_str());
        out.append(")))?,\n");
        assert(out@ =~= start + self@.take_line());
    }
}

impl BuilderDeclaration {
    /// Decides [`BuilderDeclarationView::wf`].
    pub fn is_well_formed(&self) -> (wf: bool)
        ensures
            wf == self@.wf(),
    {
        let mut a: usize = 0;
        while a < self.accessors.len()
            invariant
                a <= self.accessors.len(),
                forall|k: int|
                    0 <= k < a ==> {
                        &&& 0 <= (#[trigger] self@.accessors[k]).field < self@.fields.len()
                        &&& self@.accessors[k].action.fits(
                            self@.fields[self@.accessors[k].field].kind,
                        )
                    },
            decreases self.accessors.len() - a,
        {
            let accessor = &self.accessors[a];
            if accessor.field >= self.fields.len() {
                assert(!(0 <= self@.accessors[a as int].field < self@.fields.len()));
                return false;
            }
            let kind = self.fields[accessor.field].kind;
            let fits = match accessor.action {
                Action::Assign => kind == Kind::Plain,
                Action::AssignSome => kind == Kind::Optional,
                Action::Replace => kind == Kind::Repeated,
                Action::Push => kind == Kind::Repeated,
            };
            if !fits {
                assert(!self@.accessors[a as int].action.fits(
                    self@.fields[self@.accessors[a as int].field].kind,
                ));
                return false;
            }
            a += 1;
        }
        true
    }

    /// Appends [`BuilderDeclarationView::accessor_source`].
    fn write_accessor(&self, accessor: &Accessor, out: &mut String)
        ensures
            final(out)@ == old(out)@ + self@.accessor_source(accessor@),
    {
        let ghost start = out@;
        let name = accessor.name.as_str();
        out.append("    fn ");
        out.append(name);
        out.append("(&mut self, ");
        out.append(name);
        out.append(": ");
        out.append(accessor.parameter.as_str());
        out.append(") -> &mut Self {\n        ");
        let ghost head = out@;
        out.append("self.");
        if accessor.field < self.fields.len() {
            out.append(self.fields[accessor.field].name.as_str());
        }
        match accessor.action {
            Action::Assign | Action::Replace => {
                out.append(" = ::core::option::Option::Some(");
                out.append(name);
                out.append(");");
            },
            Action::AssignSome => {
                out.append(" = ::core::option::Option::Some(::core::option::Option::Some(");
                out.append(name);
                out.append("));");
            },
            Action::Push => {
                out.append(".as_mut().map(|items| items.push(");
                out.append(name);
                out.append("));");
            },
        }
        assert(out@ =~= head + accessor@.action.statement(
            accessor@.name,
            self@.field_name(accessor@.field),
        ));
        out.append("\n        self\n    }\n\n");
        assert(out@ =~= start + self@.accessor_source(accessor@));
    }

    /// Emits the source text of the companion.
    pub fn emit(&self) -> (source: String)
        ensures
            source@ == self@.source(),
    {
        let ghost slots = Seq::new(self@.fields.len(), |i: int| self@.fields[i].slot_source());
        let ghost methods = Seq::new(
            self@.accessors.len(),
            |a: int| self@.accessor_source(self@.accessors[a]),
        );
        let ghost takes = Seq::new(self@.fields.len(), |i: int| self@.fields[i].take_line());
        let ghost initials = Seq::new(self@.fields.len(), |i: int| self@.fields[i].initial_line());
        let mut out = String::from_str("struct ");
        out.append(self.name.as_str());
        out.append(" {\n");
        let ghost base = out@;
        let mut i: usize = 0;
        while i < self.fields.len()
            invariant
                i <= self.fields.len(),
                slots == Seq::new(self@.fields.len(), |i: int| self@.fields[i].slot_source()),
                out@ == base + concat(slots, i as int),
            decreases self.fields.len() - i,
        {
            self.fields[i].write_slot(&mut out);
            assert(out@ =~= base + concat(slots, i + 1));
            i += 1;
        }
        out.append("}\n\nimpl ");
        out.append(self.name.as_str());
        out.append(" {\n");
        let ghost base = out@;
        let mut a: usize = 0;
        while a < self.accessors.len()
            invariant
                a <= self.accessors.len(),
                methods == Seq::new(
                    self@.accessors.len(),
                    |a: int| self@.accessor_source(self@.accessors[a]),
                ),
                out@ == base + concat(methods, a as int),
            decreases self.accessors.len() - a,
        {
            self.write_accessor(&self.accessors[a], &mut out);
            assert(out@ =~= base + concat(methods, a + 1));
            a += 1;
        }
        out.append("    fn build(&mut self) -> ::core::result::Result<");
        out.append(self.target.as_str());
        out.append(
            ", ::std::boxed::Box<dyn ::std::error::Error>> {\n        ::core::result::Result::Ok(",
        );
        out.append(self.target.as_str());
        out.append(" {\n");
        let ghost base = out@;
        let mut i: usize = 0;
        while i < self.fields.len()
            invariant
                i <= self.fields.len(),
                takes == Seq::new(self@.fields.len(), |i: int| self@.fields[i].take_line()),
                out@ == base + concat(takes, i as int),
            decreases self.fields.len() - i,
        {
            self.fields[i].write_take(&mut out);
            assert(out@ =~= base + concat(takes, i + 1));
            i += 1;
        }
        out.append("        })\n    }\n}\n\nimpl ");
        out.append(self.target.as_str());
        out.append(" {\n    fn builder() -> ");
        out.append(self.name.as_str());
        out.append(" {\n        ");
        out.append(self.name.as_str());
        out.append(" {\n");
        let ghost base = out@;
        let mut i: usize = 0;
        while i < self.fields.len()
            invariant
                i <= self.fields.len(),
                initials == Seq::new(self@.fields.len(), |i: int| self@.fields[i].initial_line()),
                out@ == base + concat(initials, i as int),
            decreases self.fields.len() - i,
        {
            self.fields[i].write_initial(&mut out);
            assert(out@ =~= base + concat(initials, i + 1));
            i += 1;
        }
        out.append("        }\n    }\n}\n");
        assert(out@ =~= self@.source());
        out
    }
}

/// Generates the companion builder of a declaration: its source text, or the
/// diagnostic that [`builder_declaration`] gives.
pub fn derive_builder(input: Declaration) -> (result: Result<String, Diagnostic>)
    ensures
        outcome(result) == (match builder_declaration(input) {
            Ok(declaration) => Ok(declaration.source()),
            Err(diagnostic) => Err(diagnostic),
        }),
{
    match impl_builder(input) {
        Ok(declaration) => Ok(declaration.emit()),
        Err(diagnostic) => Err(diagnostic),
    }
}

} // verus!

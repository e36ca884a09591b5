//! The formatter at run time: a formatter declaration applied to the values
//! of a record's fields.

use crate::debug::{
    debug_format, formatter, DebugDeclaration, DebugDeclarationView, DebugField, DebugFieldView,
};
use crate::format::{format_value, formatted};
use crate::syntax::FieldDescriptor;
use crate::text::joined;
use crate::value::{Value, ValueView};
use vstd::prelude::*;
use vstd::string::*;

verus! {

/// Why a record could not be rendered.
#[derive(Clone, Copy, Debug, PartialEq, Eq, Structural)]
pub enum FormatError {
    /// There is not exactly one value per field.
    WrongFieldCount,
    /// The format string of the field at this position cannot render the
    /// field's value.
    BadFormat { field: usize },
}

impl DebugFieldView {
    /// The rendered value of the field: substituted into the field's format
    /// string where it has one, the default rendering where it has none.
    pub open spec fn rendered(self, value: ValueView) -> Option<Seq<char>> {
        match self.format {
            Some(format) => formatted(format, value),
            None => Some(value.default_text()),
        }
    }

    /// The field as it stands in the rendered record: `name: value`.
    pub open spec fn entry(self, value: ValueView) -> Seq<char> {
        self.name + ": "@ + self.rendered(value)->Some_0
    }
}

impl DebugDeclarationView {
    /// The index of the first field from `from` on whose value cannot be
    /// rendered, or the number of fields where there is none.
    pub open spec fn first_unrendered(self, values: Seq<ValueView>, from: int) -> int
        decreases self.fields.len() - from,
    {
        if from < 0 || from >= self.fields.len() {
            self.fields.len() as int
        } else if self.fields[from].rendered(values[from]) is None {
            from
        } else {
            self.first_unrendered(values, from + 1)
        }
    }

    /// The entries of all fields, in declaration order.
    pub open spec fn entries(self, values: Seq<ValueView>) -> Seq<Seq<char>> {
        Seq::new(self.fields.len(), |i: int| self.fields[i].entry(values[i]))
    }

    /// The rendered record: its name, then every field in declaration order
    /// as `name: value`, separated by commas, between braces. A record
    /// without fields is rendered as its name alone.
    pub open spec fn rendering(self, values: Seq<ValueView>) -> Result<Seq<char>, FormatError> {
        if values.len() != self.fields.len() {
            Err(FormatError::WrongFieldCount)
        } else if self.first_unrendered(values, 0) < self.fields.len() {
            Err(FormatError::BadFormat { field: self.first_unrendered(values, 0) as usize })
        } else if self.fields.len() == 0 {
            Ok(self.target)
        } else {
            Ok(
                self.target + " { "@ + joined(
                    self.entries(values),
                    ", "@,
                    self.fields.len() as int,
                ) + " }"@,
            )
        }
    }
}

impl DebugField {
    /// Renders the value of the field, as [`DebugFieldView::rendered`] says.
    pub fn render(&self, value: &Value) -> (rendered: Option<String>)
        ensures
            rendered.deep_view() == self@.rendered(value@),
    {
        match &self.format {
            Some(format) => format_value(format.as_str(), value),
            None => Some(value.render_default()),
        }
    }
}

impl DebugDeclaration {
    /// Renders a record from the values of its fields, given in declaration
    /// order, as [`DebugDeclarationView::rendering`] says.
    pub fn fmt(&self, values: &Vec<Value>) -> (result: Result<String, FormatError>)
        ensures
            match result {
                Ok(text) => self@.rendering(values.deep_view()) == Ok::<Seq<char>, FormatError>(
                    text@,
                ),
                Err(error) => self@.rendering(values.deep_view()) == Err::<
                    Seq<char>,
                    FormatError,
                >(error),
            },
    {
        if values.len() != self.fields.len() {
            return Err(FormatError::WrongFieldCount);
        }
        let ghost entries = self@.entries(values.deep_view());
        let mut out = self.target.clone();
        let mut i: usize = 0;
        while i < self.fields.len()
            invariant
                i <= self.fields.len() == values.len(),
                entries == self@.entries(values.deep_view()),
                self@.first_unrendered(values.deep_view(), 0) == self@.first_unrendered(
                    values.deep_view(),
                    i as int,
                ),
                i == 0 ==> out@ == self.target@,
                i > 0 ==> out@ == self.target@ + " { "@ + joined(entries, ", "@, i as int),
            decreases self.fields.len() - i,
        {
            let text = match self.fields[i].render(&values[i]) {
                Some(text) => text,
                None => {
                    return Err(FormatError::BadFormat { field: i });
                },
            };
            let ghost before = out@;
            if i == 0 {
                out.append(" { ");
            } else {
                out.append(", ");
            }
            out.append(self.fields[i].name.as_str());
            out.append(": ");
            out.append(text.as_str());
            assert(entries[i as int] == self@.fields[i as int].entry(values.deep_view()[i as int]));
            assert(out@ =~= self.target@ + " { "@ + joined(entries, ", "@, i + 1));
            i += 1;
        }
        if self.fields.len() > 0 {
            out.append(" }");
        }
        Ok(out)
    }
}

/// A record of two fields without annotations is rendered as its name, then
/// both fields in declaration order under their names, each by its default
/// rendering.
pub proof fn law_two_fields_render(
    name: Seq<char>,
    fields: Seq<FieldDescriptor>,
    first: ValueView,
    second: ValueView,
)
    requires
        fields.len() == 2,
        fields[0].annotations@.len() == 0,
        fields[1].annotations@.len() == 0,
    ensures
        formatter(name, fields).rendering(seq![first, second]) == Ok::<Seq<char>, FormatError>(
            name + " { "@ + fields[0].name@ + ": "@ + first.default_text() + ", "@
                + fields[1].name@ + ": "@ + second.default_text() + " }"@,
        ),
{
    let declaration = formatter(name, fields);
    let values = seq![first, second];
    let entries = declaration.entries(values);
    assert(debug_format(&fields[0]) is None);
    assert(debug_format(&fields[1]) is None);
    assert(declaration.first_unrendered(values, 2) == 2);
    assert(declaration.first_unrendered(values, 1) == 2);
    assert(declaration.first_unrendered(values, 0) == 2);
    assert(joined(entries, ", "@, 1) == entries[0]);
    assert(joined(entries, ", "@, 2) == entries[0] + ", "@ + entries[1]);
    assert(declaration.rendering(values)->Ok_0 =~= name + " { "@ + fields[0].name@ + ": "@
        + first.default_text() + ", "@ + fields[1].name@ + ": "@ + second.default_text() + " }"@);
}

} // verus!

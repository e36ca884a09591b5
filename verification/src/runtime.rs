//! The builder at run time: a companion declaration together with one slot per
//! field, the accessor calls that fill the slots, and the validating `build`.

use crate::builder::{Action, BuilderDeclaration, BuilderDeclarationView, Kind};
use crate::text::is_name;
use vstd::prelude::*;
use vstd::string::*;

verus! {

/// The value of one field of a built record.
#[derive(Debug, PartialEq, Eq)]
pub enum FieldValue<V> {
    /// The value of a plain field.
    Plain(V),
    /// The value of an optional field: absent or present.
    Optional(Option<V>),
    /// The value of a repeated field: its elements in order.
    Repeated(Vec<V>),
}

/// The argument of an accessor call.
#[derive(Debug, PartialEq, Eq)]
pub enum Argument<V> {
    /// One value.
    One(V),
    /// A whole list.
    Many(Vec<V>),
}

/// Why an accessor call was refused.
#[derive(Clone, Copy, Debug, PartialEq, Eq, Structural)]
pub enum CallError {
    /// The companion has no such accessor.
    UnknownAccessor,
    /// The accessor takes one value and was given a list, or the reverse.
    ArgumentMismatch,
}

/// The failure of `build`: a field that was never provided.
#[derive(Debug, PartialEq, Eq)]
pub struct MissingField {
    /// The name of the field.
    pub field: String,
    /// The position of the field in the declaration.
    pub index: usize,
}

/// The mathematical value of a [`FieldValue`].
pub enum FieldValueView<V> {
    Plain(V),
    Optional(Option<V>),
    Repeated(Seq<V>),
}

/// The mathematical value of an [`Argument`].
pub enum ArgumentView<V> {
    One(V),
    Many(Seq<V>),
}

/// The mathematical value of a [`MissingField`].
pub struct MissingFieldView {
    pub field: Seq<char>,
    pub index: int,
}

impl<V> View for FieldValue<V> {
    type V = FieldValueView<V>;

    open spec fn view(&self) -> FieldValueView<V> {
        match self {
            FieldValue::Plain(value) => FieldValueView::Plain(*value),
            FieldValue::Optional(value) => FieldValueView::Optional(*value),
            FieldValue::Repeated(items) => FieldValueView::Repeated(items@),
        }
    }
}

impl<V> DeepView for FieldValue<V> {
    type V = FieldValueView<V>;

    open spec fn deep_view(&self) -> FieldValueView<V> {
        self@
    }
}

impl<V> View for Argument<V> {
    type V = ArgumentView<V>;

    open spec fn view(&self) -> ArgumentView<V> {
        match self {
            Argument::One(value) => ArgumentView::One(*value),
            Argument::Many(items) => ArgumentView::Many(items@),
        }
    }
}

impl View for MissingField {
    type V = MissingFieldView;

    open spec fn view(&self) -> MissingFieldView {
        MissingFieldView { field: self.field@, index: self.index as int }
    }
}

impl MissingFieldView {
    /// The message of the failure.
    pub open spec fn message(self) -> Seq<char> {
        "field "@ + self.field + " is not provided"@
    }
}

impl MissingField {
    /// The message of the failure: which field is not provided.
    pub fn message(&self) -> (message: String)
        ensures
            message@ == self@.message(),
    {
        let mut message = String::from_str("field ");
        message.append(self.field.as_str());
        message.append(" is not provided");
        message
    }
}

/// The slot of a field: absent, or present with a value.
pub type SlotView<V> = Option<FieldValueView<V>>;

/// The slot of a field of `kind` before any call: absent for a plain field,
/// present and holding nothing for an optional one, present and holding an
/// empty list for a repeated one.
pub open spec fn initial_slot<V>(kind: Kind) -> SlotView<V> {
    match kind {
        Kind::Plain => None,
        Kind::Optional => Some(FieldValueView::Optional(None)),
        Kind::Repeated => Some(FieldValueView::Repeated(Seq::empty())),
    }
}

/// Whether `slot` can be the slot of a field of `kind`.
pub open spec fn slot_fits<V>(slot: SlotView<V>, kind: Kind) -> bool {
    match slot {
        None => true,
        Some(FieldValueView::Plain(_)) => kind == Kind::Plain,
        Some(FieldValueView::Optional(_)) => kind == Kind::Optional,
        Some(FieldValueView::Repeated(_)) => kind == Kind::Repeated,
    }
}

/// The slot after an accessor with `action` was called with `argument` on
/// `slot`, or `None` where the action does not take that form of argument.
///
/// Appending to an absent slot leaves it absent.
pub open spec fn stored<V>(action: Action, slot: SlotView<V>, argument: ArgumentView<V>) -> Option<
    SlotView<V>,
> {
    match (action, argument) {
        (Action::Assign, ArgumentView::One(value)) => Some(Some(FieldValueView::Plain(value))),
        (Action::AssignSome, ArgumentView::One(value)) => Some(
            Some(FieldValueView::Optional(Some(value))),
        ),
        (Action::Replace, ArgumentView::Many(items)) => Some(
            Some(FieldValueView::Repeated(items)),
        ),
        (Action::Push, ArgumentView::One(value)) => match slot {
            Some(FieldValueView::Repeated(items)) => Some(
                Some(FieldValueView::Repeated(items.push(value))),
            ),
            _ => Some(slot),
        },
        _ => None,
    }
}

/// The mathematical value of a [`Builder`]: its declaration and its slots.
pub struct BuilderView<V> {
    pub declaration: BuilderDeclarationView,
    pub slots: Seq<SlotView<V>>,
}

impl<V> BuilderView<V> {
    /// The declaration is well formed, there is one slot per field, and each
    /// slot fits the kind of its field.
    pub open spec fn wf(self) -> bool {
        &&& self.declaration.wf()
        &&& self.slots.len() == self.declaration.fields.len()
        &&& forall|i: int|
            0 <= i < self.slots.len() ==> slot_fits(
                #[trigger] self.slots[i],
                self.declaration.fields[i].kind,
            )
    }

    /// The builder of `declaration` before any call.
    pub open spec fn fresh(declaration: BuilderDeclarationView) -> BuilderView<V> {
        BuilderView {
            declaration,
            slots: Seq::new(
                declaration.fields.len(),
                |i: int| initial_slot(declaration.fields[i].kind),
            ),
        }
    }

    /// The builder after a call of the accessor at index `accessor`, or why
    /// the call is refused.
    pub open spec fn applied(self, accessor: int, argument: ArgumentView<V>) -> Result<
        BuilderView<V>,
        CallError,
    > {
        if 0 <= accessor < self.declaration.accessors.len() {
            let target = self.declaration.accessors[accessor];
            match stored(target.action, self.slots[target.field], argument) {
                Some(slot) => Ok(
                    BuilderView {
                        declaration: self.declaration,
                        slots: self.slots.update(target.field, slot),
                    },
                ),
                None => Err(CallError::ArgumentMismatch),
            }
        } else {
            Err(CallError::UnknownAccessor)
        }
    }

    /// The index of the first absent slot from `from` on, or the number of
    /// slots where there is none.
    pub open spec fn first_absent(self, from: int) -> int
        decreases self.slots.len() - from,
    {
        if from < 0 || from >= self.slots.len() {
            self.slots.len() as int
        } else if self.slots[from] is None {
            from
        } else {
            self.first_absent(from + 1)
        }
    }

    /// What `build` returns: the values of all fields in declaration order,
    /// or the first field in declaration order whose slot is absent.
    pub open spec fn built(self) -> Result<Seq<FieldValueView<V>>, MissingFieldView> {
        let absent = self.first_absent(0);
        if absent < self.slots.len() {
            Err(MissingFieldView { field: self.declaration.fields[absent].name, index: absent })
        } else {
            Ok(Seq::new(self.slots.len(), |i: int| self.slots[i]->Some_0))
        }
    }

    /// The builder after `build`: the slots before the first absent one have
    /// been emptied, the others are as they were.
    pub open spec fn drained(self) -> BuilderView<V> {
        let absent = self.first_absent(0);
        BuilderView {
            declaration: self.declaration,
            slots: Seq::new(
                self.slots.len(),
                |i: int|
                    if i < absent {
                        None
                    } else {
                        self.slots[i]
                    },
            ),
        }
    }
}

/// The index of the first accessor from `from` on that is named `name` and
/// takes a list if `list`, one value if not; `None` where there is none.
pub open spec fn resolved(
    declaration: BuilderDeclarationView,
    name: Seq<char>,
    list: bool,
    from: int,
) -> Option<int>
    decreases declaration.accessors.len() - from,
{
    if from < 0 || from >= declaration.accessors.len() {
        None
    } else if declaration.accessors[from].name == name
        && declaration.accessors[from].action.takes_list() == list {
        Some(from)
    } else {
        resolved(declaration, name, list, from + 1)
    }
}

/// A companion builder at run time.
pub struct Builder<'a, V> {
    declaration: &'a BuilderDeclaration,
    slots: Vec<Option<FieldValue<V>>>,
}

impl<'a, V> View for Builder<'a, V> {
    type V = BuilderView<V>;

    closed spec fn view(&self) -> BuilderView<V> {
        BuilderView { declaration: self.declaration@, slots: self.slots.deep_view() }
    }
}

impl<'a, V> Builder<'a, V> {
    /// A builder of `declaration` on which no accessor was called yet.
    pub fn new(declaration: &'a BuilderDeclaration) -> (builder: Builder<'a, V>)
        requires
            declaration@.wf(),
        ensures
            builder@ == BuilderView::<V>::fresh(declaration@),
            builder@.wf(),
    {
        let mut slots: Vec<Option<FieldValue<V>>> = Vec::new();
        let mut i: usize = 0;
        while i < declaration.fields.len()
            invariant
                i <= declaration.fields.len(),
                slots.deep_view() == Seq::new(
                    i as nat,
                    |k: int| initial_slot::<V>(declaration@.fields[k].kind),
                ),
            decreases declaration.fields.len() - i,
        {
            let ghost before = slots.deep_view();
            let slot = match declaration.fields[i].kind {
                Kind::Plain => None,
                Kind::Optional => Some(FieldValue::Optional(None)),
                Kind::Repeated => Some(FieldValue::Repeated(Vec::new())),
            };
            slots.push(slot);
            assert(slots.deep_view() =~= before.push(
                initial_slot::<V>(declaration@.fields[i as int].kind),
            ));
            i += 1;
        }
        Builder { declaration, slots }
    }

    /// The declaration that the builder was made from.
    pub fn declaration(&self) -> (declaration: &'a BuilderDeclaration)
        ensures
            declaration@ == self@.declaration,
    {
        self.declaration
    }

    /// Calls the accessor at index `accessor` with `argument`.
    ///
    /// The call is refused, and the builder left as it was, where there is no
    /// such accessor or where the accessor does not take that form of
    /// argument.
    pub fn apply(&mut self, accessor: usize, argument: Argument<V>) -> (result: Result<
        (),
        CallError,
    >)
        requires
            old(self)@.wf(),
        ensures
            final(self)@.wf(),
            match result {
                Ok(_) => old(self)@.applied(accessor as int, argument@) == Ok::<
                    BuilderView<V>,
                    CallError,
                >(final(self)@),
                Err(error) => old(self)@.applied(accessor as int, argument@) == Err::<
                    BuilderView<V>,
                    CallError,
                >(error) && final(self)@ == old(self)@,
            },
    {
        if accessor >= self.declaration.accessors.len() {
            return Err(CallError::UnknownAccessor);
        }
        let target = &self.declaration.accessors[accessor];
        let field = target.field;
        let ghost before = self.slots.deep_view();
        match (target.action, argument) {
            (Action::Assign, Argument::One(value)) => {
                self.slots.set(field, Some(FieldValue::Plain(value)));
                assert(self.slots.deep_view() =~= before.update(
                    field as int,
                    Some(FieldValueView::Plain(value)),
                ));
                Ok(())
            },
            (Action::AssignSome, Argument::One(value)) => {
                self.slots.set(field, Some(FieldValue::Optional(Some(value))));
                assert(self.slots.deep_view() =~= before.update(
                    field as int,
                    Some(FieldValueView::Optional(Some(value))),
                ));
                Ok(())
            },
            (Action::Replace, Argument::Many(items)) => {
                let ghost list = items@;
                self.slots.set(field, Some(FieldValue::Repeated(items)));
                assert(self.slots.deep_view() =~= before.update(
                    field as int,
                    Some(FieldValueView::Repeated(list)),
                ));
                Ok(())
            },
            (Action::Push, Argument::One(value)) => {
                match &mut self.slots[field] {
                    Some(FieldValue::Repeated(items)) => {
                        items.push(value);
                    },
                    _ => {},
                }
                assert(self.slots.deep_view() =~= before.update(
                    field as int,
                    stored(Action::Push, before[field as int], ArgumentView::One(value))->Some_0,
                ));
                Ok(())
            },
            _ => Err(CallError::ArgumentMismatch),
        }
    }

    /// Calls the first accessor named `name` that takes the form of
    /// `argument`: one value or a whole list.
    pub fn call(&mut self, name: &str, argument: Argument<V>) -> (result: Result<(), CallError>)
        requires
            old(self)@.wf(),
        ensures
            final(self)@.wf(),
            match resolved(old(self)@.declaration, name@, argument@ is Many, 0) {
                Some(accessor) => match result {
                    Ok(_) => old(self)@.applied(accessor, argument@) == Ok::<
                        BuilderView<V>,
                        CallError,
                    >(final(self)@),
                    Err(error) => old(self)@.applied(accessor, argument@) == Err::<
                        BuilderView<V>,
                        CallError,
                    >(error) && final(self)@ == old(self)@,
                },
                None => {
                    &&& result == Err::<(), CallError>(CallError::UnknownAccessor)
                    &&& final(self)@ == old(self)@
                },
            },
    {
        let list = match &argument {
            Argument::One(_) => false,
            Argument::Many(_) => true,
        };
        let mut i: usize = 0;
        while i < self.declaration.accessors.len()
            invariant
                i <= self.declaration.accessors.len(),
                self@ == old(self)@,
                self@.wf(),
                list == (argument@ is Many),
                resolved(self@.declaration, name@, list, 0) == resolved(
                    self@.declaration,
                    name@,
                    list,
                    i as int,
                ),
            decreases self.declaration.accessors.len() - i,
        {
            let candidate = &self.declaration.accessors[i];
            let takes_list = match candidate.action {
                Action::Replace => true,
                _ => false,
            };
            if takes_list == list && is_name(&candidate.name, name) {
                return self.apply(i, argument);
            }
            i += 1;
        }
        Err(CallError::UnknownAccessor)
    }

    /// Validates the builder and hands out the values of the record's fields
    /// in declaration order.
    ///
    /// Fails on the first field in declaration order that was not provided.
    /// The values are taken out of the builder: the slots before the failing
    /// field, or all slots on success, are absent afterwards.
    pub fn build(&mut self) -> (result: Result<Vec<FieldValue<V>>, MissingField>)
        requires
            old(self)@.wf(),
        ensures
            final(self)@.wf(),
            final(self)@ == old(self)@.drained(),
            match result {
                Ok(values) => old(self)@.built() == Ok::<
                    Seq<FieldValueView<V>>,
                    MissingFieldView,
                >(values.deep_view()),
                Err(missing) => old(self)@.built() == Err::<
                    Seq<FieldValueView<V>>,
                    MissingFieldView,
                >(missing@),
            },
    {
        let ghost start = self@;
        let mut values: Vec<FieldValue<V>> = Vec::new();
        let mut i: usize = 0;
        while i < self.slots.len()
            invariant
                start == old(self)@,
                start.wf(),
                self@.declaration == start.declaration,
                i <= self.slots.len() == start.slots.len(),
                start.first_absent(0) == start.first_absent(i as int),
                values.deep_view() == Seq::new(i as nat, |k: int| start.slots[k]->Some_0),
                self.slots.deep_view() == Seq::new(
                    start.slots.len(),
                    |k: int|
                        if k < i {
                            None
                        } else {
                            start.slots[k]
                        },
                ),
            decreases self.slots.len() - i,
        {
            let ghost slots_before = self.slots.deep_view();
            let ghost values_before = values.deep_view();
            assert(slots_before[i as int] == start.slots[i as int]);
            let taken = self.slots[i].take();
            assert(taken.deep_view() == slots_before[i as int]);
            match taken {
                Some(value) => {
                    values.push(value);
                    assert(values.deep_view() =~= values_before.push(start.slots[i as int]->Some_0));
                },
                None => {
                    assert(self.slots.deep_view() =~= slots_before);
                    return Err(
                        MissingField { field: self.declaration.fields[i].name.clone(), index: i },
                    );
                },
            }
            assert(self.slots.deep_view() =~= slots_before.update(i as int, None));
            i += 1;
        }
        Ok(values)
    }
}

} // verus!

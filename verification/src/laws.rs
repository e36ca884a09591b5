//! What holds of every builder: the laws that relate accessor calls to what
//! `build` returns.

use crate::builder::{
    accessor_base, accessors_for, companion, each_name, kind_of, lemma_accessors_at,
    lemma_companion_wf, lemma_plain_accessors, BuilderDeclarationView, Kind,
};
use crate::runtime::{ArgumentView, BuilderView, FieldValueView, MissingFieldView};
use crate::syntax::FieldDescriptor;
use vstd::prelude::*;

verus! {

/// One accessor call: the index of the accessor and its argument.
pub struct Call<V> {
    pub accessor: int,
    pub argument: ArgumentView<V>,
}

impl<V> BuilderView<V> {
    /// The builder after `calls` in order. A refused call changes nothing.
    pub open spec fn after(self, calls: Seq<Call<V>>) -> BuilderView<V>
        decreases calls.len(),
    {
        if calls.len() == 0 {
            self
        } else {
            let before = self.after(calls.drop_last());
            match before.applied(calls.last().accessor, calls.last().argument) {
                Ok(next) => next,
                Err(_) => before,
            }
        }
    }

    /// Validation does not fail on the field at `field`, and where it
    /// succeeds the field has `value`.
    pub open spec fn yields(self, field: int, value: FieldValueView<V>) -> bool {
        match self.built() {
            Ok(values) => values[field] == value,
            Err(missing) => missing.index != field,
        }
    }
}

impl BuilderDeclarationView {
    /// Whether `call` goes to an accessor that writes the field at `field`.
    pub open spec fn writes<V>(self, call: Call<V>, field: int) -> bool {
        0 <= call.accessor < self.accessors.len() && self.accessors[call.accessor].field == field
    }

    /// Whether `call` is accepted: its accessor exists and takes the form of
    /// its argument.
    pub open spec fn accepts<V>(self, call: Call<V>) -> bool {
        &&& 0 <= call.accessor < self.accessors.len()
        &&& (call.argument is Many) == self.accessors[call.accessor].action.takes_list()
    }

    /// Whether one of `calls` is accepted and writes the field at `field`.
    pub open spec fn provided<V>(self, calls: Seq<Call<V>>, field: int) -> bool {
        exists|j: int|
            0 <= j < calls.len() && self.accepts(#[trigger] calls[j]) && self.writes(calls[j], field)
    }

    /// Whether none of `calls` goes to an accessor that writes the field at
    /// `field`.
    pub open spec fn untouched<V>(self, calls: Seq<Call<V>>, field: int) -> bool {
        forall|j: int| 0 <= j < calls.len() ==> !self.writes(#[trigger] calls[j], field)
    }
}

/// A single call either is refused and changes nothing, or makes the builder
/// what [`BuilderView::applied`] says.
pub proof fn lemma_after_one<V>(builder: BuilderView<V>, call: Call<V>)
    ensures
        builder.after(seq![call]) == (match builder.applied(call.accessor, call.argument) {
            Ok(next) => next,
            Err(_) => builder,
        }),
{
    assert(seq![call].drop_last() =~= Seq::<Call<V>>::empty());
    assert(builder.after(Seq::<Call<V>>::empty()) == builder);
}

/// A call keeps a well-formed builder well formed, and changes at most the
/// slot of the field that its accessor writes.
pub proof fn lemma_applied<V>(builder: BuilderView<V>, call: Call<V>)
    requires
        builder.wf(),
    ensures
        builder.after(seq![call]).wf(),
        builder.after(seq![call]).declaration == builder.declaration,
        forall|i: int|
            0 <= i < builder.slots.len() && !builder.declaration.writes(call, i)
                ==> #[trigger] builder.after(seq![call]).slots[i] == builder.slots[i],
        forall|i: int|
            0 <= i < builder.slots.len() && builder.slots[i] is Some
                ==> (#[trigger] builder.after(seq![call]).slots[i]) is Some,
{
    lemma_after_one(builder, call);
}

/// Calls one after the other: the calls of `first`, then those of `second`.
pub proof fn lemma_after_concat<V>(builder: BuilderView<V>, first: Seq<Call<V>>, second: Seq<Call<V>>)
    ensures
        builder.after(first + second) == builder.after(first).after(second),
    decreases second.len(),
{
    if second.len() == 0 {
        assert(first + second =~= first);
    } else {
        lemma_after_concat(builder, first, second.drop_last());
        assert((first + second).drop_last() =~= first + second.drop_last());
    }
}

/// Calls keep a well-formed builder well formed, leave the slots of the
/// fields they do not write as they were, and never empty a slot.
pub proof fn lemma_after<V>(builder: BuilderView<V>, calls: Seq<Call<V>>)
    requires
        builder.wf(),
    ensures
        builder.after(calls).wf(),
        builder.after(calls).declaration == builder.declaration,
        forall|i: int|
            0 <= i < builder.slots.len() && builder.declaration.untouched(calls, i)
                ==> #[trigger] builder.after(calls).slots[i] == builder.slots[i],
        forall|i: int|
            0 <= i < builder.slots.len() && builder.slots[i] is Some
                ==> (#[trigger] builder.after(calls).slots[i]) is Some,
    decreases calls.len(),
{
    if calls.len() > 0 {
        let before = builder.after(calls.drop_last());
        lemma_after(builder, calls.drop_last());
        lemma_applied(before, calls.last());
        lemma_after_concat(builder, calls.drop_last(), seq![calls.last()]);
        assert(calls.drop_last() + seq![calls.last()] =~= calls);
        assert forall|i: int|
            0 <= i < builder.slots.len() && builder.declaration.untouched(
                calls,
                i,
            ) implies #[trigger] builder.after(calls).slots[i] == builder.slots[i] by {
            assert(!builder.declaration.writes(calls[calls.len() - 1], i));
            assert forall|j: int| 0 <= j < calls.drop_last().len() implies !builder.declaration.writes(
                #[trigger] calls.drop_last()[j],
                i,
            ) by {
                assert(calls.drop_last()[j] == calls[j]);
            }
        }
    }
}

/// Where [`BuilderView::first_absent`] points: at an absent slot, after
/// present ones only.
pub proof fn lemma_first_absent<V>(builder: BuilderView<V>, from: int)
    requires
        0 <= from <= builder.slots.len(),
    ensures
        from <= builder.first_absent(from) <= builder.slots.len(),
        builder.first_absent(from) < builder.slots.len() ==> builder.slots[builder.first_absent(
            from,
        )] is None,
        forall|i: int| from <= i < builder.first_absent(from) ==> (#[trigger] builder.slots[i]) is Some,
    decreases builder.slots.len() - from,
{
    if from < builder.slots.len() && builder.slots[from] is Some {
        lemma_first_absent(builder, from + 1);
    }
}

/// A field whose slot holds `value` is not the one validation fails on, and
/// comes out as `value`.
pub proof fn lemma_present_yields<V>(builder: BuilderView<V>, field: int, value: FieldValueView<V>)
    requires
        0 <= field < builder.slots.len(),
        builder.slots[field] == Some(value),
    ensures
        builder.yields(field, value),
{
    lemma_first_absent(builder, 0);
}

/// Validation fails exactly where a slot is absent, and then names the field
/// of the first absent slot.
pub proof fn lemma_built<V>(builder: BuilderView<V>)
    ensures
        builder.built() is Ok <==> forall|i: int|
            0 <= i < builder.slots.len() ==> (#[trigger] builder.slots[i]) is Some,
        builder.built() matches Err(missing) ==> {
            &&& 0 <= missing.index < builder.slots.len()
            &&& builder.slots[missing.index] is None
            &&& missing.field == builder.declaration.fields[missing.index].name
            &&& forall|i: int| 0 <= i < missing.index ==> (#[trigger] builder.slots[i]) is Some
        },
{
    lemma_first_absent(builder, 0);
}

/// The call that hands `value` to the accessor at index `accessor`.
pub open spec fn call_one<V>(accessor: int, value: V) -> Call<V> {
    Call { accessor, argument: ArgumentView::One(value) }
}

/// The call that hands the list `items` to the accessor at index `accessor`.
pub open spec fn call_many<V>(accessor: int, items: Seq<V>) -> Call<V> {
    Call { accessor, argument: ArgumentView::Many(items) }
}

/// An optional field whose accessor is never called does not fail
/// validation, and comes out absent.
pub proof fn law_optional_untouched<V>(
    name: Seq<char>,
    fields: Seq<FieldDescriptor>,
    field: int,
    calls: Seq<Call<V>>,
)
    requires
        0 <= field < fields.len(),
        kind_of(&fields[field].ty) == Kind::Optional,
        companion(name, fields).untouched(calls, field),
    ensures
        BuilderView::<V>::fresh(companion(name, fields)).after(calls).yields(
            field,
            FieldValueView::Optional(None),
        ),
{
    let fresh = BuilderView::<V>::fresh(companion(name, fields));
    lemma_companion_wf(name, fields);
    lemma_after(fresh, calls);
    lemma_present_yields(fresh.after(calls), field, FieldValueView::Optional(None));
}

/// An optional field whose accessor was called with `value`, and not again
/// afterwards, does not fail validation, and comes out present and equal to
/// `value`. The accessor is the first of the field, under the field's name.
pub proof fn law_optional_provided<V>(
    name: Seq<char>,
    fields: Seq<FieldDescriptor>,
    field: int,
    earlier: Seq<Call<V>>,
    value: V,
    later: Seq<Call<V>>,
)
    requires
        0 <= field < fields.len(),
        kind_of(&fields[field].ty) == Kind::Optional,
        companion(name, fields).untouched(later, field),
    ensures
        companion(name, fields).accessors[accessor_base(fields, field)].name == fields[field].name@,
        BuilderView::<V>::fresh(companion(name, fields)).after(
            earlier + seq![call_one(accessor_base(fields, field), value)] + later,
        ).yields(field, FieldValueView::Optional(Some(value))),
{
    let declaration = companion(name, fields);
    let fresh = BuilderView::<V>::fresh(declaration);
    let call = call_one(accessor_base(fields, field), value);
    lemma_companion_wf(name, fields);
    lemma_accessors_at(fields, fields.len() as int, field);
    assert(declaration.accessors[accessor_base(fields, field) + 0] == accessors_for(
        field,
        &fields[field],
        each_name(&fields[field]),
    )[0]);
    lemma_after(fresh, earlier);
    let before = fresh.after(earlier);
    lemma_applied(before, call);
    let written = before.after(seq![call]);
    lemma_after_one(before, call);
    assert(written.slots[field] == Some(FieldValueView::Optional(Some(value))));
    lemma_after(written, later);
    lemma_after_concat(fresh, earlier, seq![call]);
    lemma_after_concat(fresh, earlier + seq![call], later);
    lemma_present_yields(written.after(later), field, FieldValueView::Optional(Some(value)));
}

/// A repeated field whose accessors are never called does not fail
/// validation, and comes out as the empty list.
pub proof fn law_repeated_untouched<V>(
    name: Seq<char>,
    fields: Seq<FieldDescriptor>,
    field: int,
    calls: Seq<Call<V>>,
)
    requires
        0 <= field < fields.len(),
        kind_of(&fields[field].ty) == Kind::Repeated,
        companion(name, fields).untouched(calls, field),
    ensures
        BuilderView::<V>::fresh(companion(name, fields)).after(calls).yields(
            field,
            FieldValueView::Repeated(Seq::empty()),
        ),
{
    let fresh = BuilderView::<V>::fresh(companion(name, fields));
    lemma_companion_wf(name, fields);
    lemma_after(fresh, calls);
    lemma_present_yields(fresh.after(calls), field, FieldValueView::Repeated(Seq::empty()));
}

/// A repeated field whose whole-list accessor was called with `items`, and
/// none of whose accessors was called afterwards, does not fail validation,
/// and comes out as `items`. The accessor is the first of the field, under the
/// field's name.
pub proof fn law_repeated_whole<V>(
    name: Seq<char>,
    fields: Seq<FieldDescriptor>,
    field: int,
    earlier: Seq<Call<V>>,
    items: Seq<V>,
    later: Seq<Call<V>>,
)
    requires
        0 <= field < fields.len(),
        kind_of(&fields[field].ty) == Kind::Repeated,
        companion(name, fields).untouched(later, field),
    ensures
        companion(name, fields).accessors[accessor_base(fields, field)].name == fields[field].name@,
        BuilderView::<V>::fresh(companion(name, fields)).after(
            earlier + seq![call_many(accessor_base(fields, field), items)] + later,
        ).yields(field, FieldValueView::Repeated(items)),
{
    let declaration = companion(name, fields);
    let fresh = BuilderView::<V>::fresh(declaration);
    let call = call_many(accessor_base(fields, field), items);
    lemma_companion_wf(name, fields);
    lemma_accessors_at(fields, fields.len() as int, field);
    assert(declaration.accessors[accessor_base(fields, field) + 0] == accessors_for(
        field,
        &fields[field],
        each_name(&fields[field]),
    )[0]);
    lemma_after(fresh, earlier);
    let before = fresh.after(earlier);
    lemma_applied(before, call);
    let written = before.after(seq![call]);
    lemma_after_one(before, call);
    assert(written.slots[field] == Some(FieldValueView::Repeated(items)));
    lemma_after(written, later);
    lemma_after_concat(fresh, earlier, seq![call]);
    lemma_after_concat(fresh, earlier + seq![call], later);
    lemma_present_yields(written.after(later), field, FieldValueView::Repeated(items));
}

/// A repeated field with a per-element accessor, called three times with
/// `a`, `b` and `c` on the field as it starts out, and none of whose accessors
/// was called afterwards, does not fail validation, and comes out as the list
/// `[a, b, c]`. The accessor is the second of the field, under the name that
/// the annotation gave.
pub proof fn law_repeated_each<V>(
    name: Seq<char>,
    fields: Seq<FieldDescriptor>,
    field: int,
    earlier: Seq<Call<V>>,
    a: V,
    b: V,
    c: V,
    later: Seq<Call<V>>,
)
    requires
        0 <= field < fields.len(),
        kind_of(&fields[field].ty) == Kind::Repeated,
        each_name(&fields[field]) is Some,
        companion(name, fields).untouched(earlier, field),
        companion(name, fields).untouched(later, field),
    ensures
        companion(name, fields).accessors[accessor_base(fields, field) + 1].name == each_name(
            &fields[field],
        )->Some_0,
        BuilderView::<V>::fresh(companion(name, fields)).after(
            earlier + seq![
                call_one(accessor_base(fields, field) + 1, a),
                call_one(accessor_base(fields, field) + 1, b),
                call_one(accessor_base(fields, field) + 1, c),
            ] + later,
        ).yields(field, FieldValueView::Repeated(seq![a, b, c])),
{
    let declaration = companion(name, fields);
    let fresh = BuilderView::<V>::fresh(declaration);
    let each = accessor_base(fields, field) + 1;
    lemma_companion_wf(name, fields);
    lemma_accessors_at(fields, fields.len() as int, field);
    assert(declaration.accessors[accessor_base(fields, field) + 1] == accessors_for(
        field,
        &fields[field],
        each_name(&fields[field]),
    )[1]);
    lemma_after(fresh, earlier);
    let s0 = fresh.after(earlier);
    assert(s0.slots[field] == Some(FieldValueView::<V>::Repeated(Seq::empty())));
    lemma_applied(s0, call_one(each, a));
    lemma_after_one(s0, call_one(each, a));
    let s1 = s0.after(seq![call_one(each, a)]);
    assert(s1.slots[field] == Some(FieldValueView::Repeated(Seq::<V>::empty().push(a))));
    lemma_applied(s1, call_one(each, b));
    lemma_after_one(s1, call_one(each, b));
    let s2 = s1.after(seq![call_one(each, b)]);
    assert(s2.slots[field] == Some(FieldValueView::Repeated(Seq::<V>::empty().push(a).push(b))));
    lemma_applied(s2, call_one(each, c));
    lemma_after_one(s2, call_one(each, c));
    let s3 = s2.after(seq![call_one(each, c)]);
    assert(Seq::<V>::empty().push(a).push(b).push(c) =~= seq![a, b, c]);
    assert(s3.slots[field] == Some(FieldValueView::Repeated(seq![a, b, c])));
    lemma_after(s3, later);
    lemma_after_concat(s0, seq![call_one(each, a)], seq![call_one(each, b)]);
    lemma_after_concat(s0, seq![call_one(each, a)] + seq![call_one(each, b)], seq![call_one(each, c)]);
    assert(seq![call_one(each, a)] + seq![call_one(each, b)] + seq![call_one(each, c)] =~= seq![
        call_one(each, a),
        call_one(each, b),
        call_one(each, c),
    ]);
    lemma_after_concat(
        fresh,
        earlier,
        seq![call_one(each, a), call_one(each, b), call_one(each, c)],
    );
    lemma_after_concat(
        fresh,
        earlier + seq![call_one(each, a), call_one(each, b), call_one(each, c)],
        later,
    );
    lemma_present_yields(s3.after(later), field, FieldValueView::Repeated(seq![a, b, c]));
}

/// Whether `index` is among the first `m` entries of `order`.
pub open spec fn occurs(order: Seq<int>, m: int, index: int) -> bool {
    exists|j: int| 0 <= j < m && #[trigger] order[j] == index
}

/// For a record of plain fields: the calls that hand the field at `order[0]`
/// its value, then the field at `order[1]`, and so on, each through the
/// field's accessor.
pub open spec fn plain_calls<V>(fields: Seq<FieldDescriptor>, order: Seq<int>, values: Seq<V>) -> Seq<
    Call<V>,
> {
    Seq::new(order.len(), |j: int| call_one(accessor_base(fields, order[j]), values[order[j]]))
}

/// On a record of plain fields, after the first `m` of the calls of
/// [`plain_calls`] the fields that were called hold their values and the
/// others are absent.
pub proof fn lemma_plain_slots<V>(
    name: Seq<char>,
    fields: Seq<FieldDescriptor>,
    order: Seq<int>,
    values: Seq<V>,
    m: int,
)
    requires
        forall|i: int| 0 <= i < fields.len() ==> kind_of(&#[trigger] fields[i].ty) == Kind::Plain,
        values.len() == fields.len(),
        forall|j: int| 0 <= j < order.len() ==> 0 <= #[trigger] order[j] < fields.len(),
        0 <= m <= order.len(),
    ensures
        BuilderView::<V>::fresh(companion(name, fields)).after(
            plain_calls(fields, order, values).take(m),
        ).wf(),
        BuilderView::<V>::fresh(companion(name, fields)).after(
            plain_calls(fields, order, values).take(m),
        ).declaration == companion(name, fields),
        forall|i: int|
            0 <= i < fields.len() ==> #[trigger] BuilderView::<V>::fresh(
                companion(name, fields),
            ).after(plain_calls(fields, order, values).take(m)).slots[i] == (if occurs(order, m, i) {
                Some(FieldValueView::Plain(values[i]))
            } else {
                None
            }),
    decreases m,
{
    let declaration = companion(name, fields);
    let fresh = BuilderView::<V>::fresh(declaration);
    let calls = plain_calls(fields, order, values);
    lemma_companion_wf(name, fields);
    lemma_plain_accessors(fields, fields.len() as int);
    if m == 0 {
        assert(calls.take(0) =~= Seq::<Call<V>>::empty());
    } else {
        lemma_plain_slots(name, fields, order, values, m - 1);
        let before = fresh.after(calls.take(m - 1));
        let call = calls[m - 1];
        assert(calls.take(m) =~= calls.take(m - 1) + seq![call]);
        lemma_after_concat(fresh, calls.take(m - 1), seq![call]);
        lemma_after_one(before, call);
        lemma_applied(before, call);
        let target = order[m - 1];
        assert(0 <= target < fields.len());
        lemma_plain_accessors(fields, target);
        assert(call.accessor == target);
        assert(declaration.accessors[target].field == target);
        assert forall|i: int| 0 <= i < fields.len() implies #[trigger] fresh.after(
            calls.take(m),
        ).slots[i] == (if occurs(order, m, i) {
            Some(FieldValueView::Plain(values[i]))
        } else {
            None
        }) by {
            if i == target {
                assert(order[m - 1] == i);
            } else {
                if occurs(order, m, i) {
                    let j = choose|j: int| 0 <= j < m && #[trigger] order[j] == i;
                    assert(0 <= j < m - 1 && order[j] == i);
                }
                if occurs(order, m - 1, i) {
                    let j = choose|j: int| 0 <= j < m - 1 && #[trigger] order[j] == i;
                    assert(0 <= j < m && order[j] == i);
                }
            }
        }
    }
}

/// On a record of plain fields, calling the accessor of every field once, in
/// any order, makes validation succeed with exactly the values that were
/// handed in.
///
/// `order` is the order of the calls: a rearrangement of the field indices.
/// `values[i]` is the value handed to the accessor of field `i`.
pub proof fn law_plain_record_complete<V>(
    name: Seq<char>,
    fields: Seq<FieldDescriptor>,
    order: Seq<int>,
    values: Seq<V>,
)
    requires
        forall|i: int| 0 <= i < fields.len() ==> kind_of(&#[trigger] fields[i].ty) == Kind::Plain,
        values.len() == fields.len(),
        order.len() == fields.len(),
        forall|j: int| 0 <= j < order.len() ==> 0 <= #[trigger] order[j] < fields.len(),
        forall|i: int| 0 <= i < fields.len() ==> occurs(order, order.len() as int, i),
    ensures
        BuilderView::<V>::fresh(companion(name, fields)).after(
            plain_calls(fields, order, values),
        ).built() == Ok::<Seq<FieldValueView<V>>, MissingFieldView>(
            Seq::new(fields.len(), |i: int| FieldValueView::Plain(values[i])),
        ),
{
    let calls = plain_calls(fields, order, values);
    let done = BuilderView::<V>::fresh(companion(name, fields)).after(calls);
    lemma_plain_slots(name, fields, order, values, order.len() as int);
    assert(calls.take(order.len() as int) =~= calls);
    lemma_built(done);
    assert(done.built()->Ok_0 =~= Seq::new(
        fields.len(),
        |i: int| FieldValueView::Plain(values[i]),
    ));
}

/// On a record of plain fields, calling the accessor of every field but one
/// makes validation fail with the missing-field error that names that one
/// field.
///
/// `order` is the order of the calls: a rearrangement of the field indices
/// other than `omitted`.
pub proof fn law_plain_record_incomplete<V>(
    name: Seq<char>,
    fields: Seq<FieldDescriptor>,
    order: Seq<int>,
    values: Seq<V>,
    omitted: int,
)
    requires
        forall|i: int| 0 <= i < fields.len() ==> kind_of(&#[trigger] fields[i].ty) == Kind::Plain,
        values.len() == fields.len(),
        0 <= omitted < fields.len(),
        order.len() == fields.len() - 1,
        forall|j: int|
            0 <= j < order.len() ==> 0 <= #[trigger] order[j] < fields.len() && order[j] != omitted,
        forall|i: int|
            0 <= i < fields.len() && i != omitted ==> occurs(order, order.len() as int, i),
    ensures
        BuilderView::<V>::fresh(companion(name, fields)).after(
            plain_calls(fields, order, values),
        ).built() == Err::<Seq<FieldValueView<V>>, MissingFieldView>(
            MissingFieldView { field: fields[omitted].name@, index: omitted },
        ),
{
    let calls = plain_calls(fields, order, values);
    let done = BuilderView::<V>::fresh(companion(name, fields)).after(calls);
    lemma_plain_slots(name, fields, order, values, order.len() as int);
    assert(calls.take(order.len() as int) =~= calls);
    assert(!occurs(order, order.len() as int, omitted));
    assert(done.slots[omitted] is None);
    lemma_built(done);
}

/// After any calls on a fresh builder, the absent slots are those of the
/// plain fields that no accepted call has written.
pub proof fn lemma_absent_slots<V>(declaration: BuilderDeclarationView, calls: Seq<Call<V>>)
    requires
        declaration.wf(),
    ensures
        BuilderView::<V>::fresh(declaration).after(calls).wf(),
        BuilderView::<V>::fresh(declaration).after(calls).declaration == declaration,
        forall|field: int|
            0 <= field < declaration.fields.len() ==> ((#[trigger] BuilderView::<V>::fresh(
                declaration,
            ).after(calls).slots[field]) is None) == (declaration.fields[field].kind == Kind::Plain
                && !declaration.provided(calls, field)),
    decreases calls.len(),
{
    let fresh = BuilderView::<V>::fresh(declaration);
    lemma_after(fresh, calls);
    if calls.len() > 0 {
        let init = calls.drop_last();
        let last = calls.last();
        let before = fresh.after(init);
        let done = fresh.after(calls);
        lemma_absent_slots(declaration, init);
        lemma_applied(before, last);
        lemma_after_one(before, last);
        assert forall|field: int| 0 <= field < declaration.fields.len() implies ((
        #[trigger] done.slots[field]) is None) == (declaration.fields[field].kind == Kind::Plain
            && !declaration.provided(calls, field)) by {
            let hit = declaration.accepts(last) && declaration.writes(last, field);
            if declaration.provided(init, field) {
                let j = choose|j: int|
                    0 <= j < init.len() && declaration.accepts(#[trigger] init[j])
                        && declaration.writes(init[j], field);
                assert(calls[j] == init[j]);
            }
            if hit {
                assert(calls[calls.len() - 1] == last);
            }
            if declaration.provided(calls, field) {
                let j = choose|j: int|
                    0 <= j < calls.len() && declaration.accepts(#[trigger] calls[j])
                        && declaration.writes(calls[j], field);
                if j < calls.len() - 1 {
                    assert(init[j] == calls[j]);
                }
            }
            assert(declaration.provided(calls, field) == (declaration.provided(init, field) || hit));
        }
    }
}

/// Validation succeeds exactly if every plain field was provided: written by
/// an accepted call. Where it fails, it names the first plain field in
/// declaration order that was not provided. Optional and repeated fields
/// never make it fail.
pub proof fn law_validation<V>(declaration: BuilderDeclarationView, calls: Seq<Call<V>>)
    requires
        declaration.wf(),
    ensures
        BuilderView::<V>::fresh(declaration).after(calls).built() is Ok <==> forall|field: int|
            0 <= field < declaration.fields.len() && (#[trigger] declaration.fields[field]).kind
                == Kind::Plain ==> declaration.provided(calls, field),
        BuilderView::<V>::fresh(declaration).after(calls).built() matches Err(missing) ==> {
            &&& 0 <= missing.index < declaration.fields.len()
            &&& missing.field == declaration.fields[missing.index].name
            &&& declaration.fields[missing.index].kind == Kind::Plain
            &&& !declaration.provided(calls, missing.index)
            &&& forall|field: int|
                0 <= field < missing.index && (#[trigger] declaration.fields[field]).kind
                    == Kind::Plain ==> declaration.provided(calls, field)
        },
{
    let done = BuilderView::<V>::fresh(declaration).after(calls);
    lemma_absent_slots(declaration, calls);
    lemma_built(done);
    if done.built() is Ok {
        assert forall|field: int|
            0 <= field < declaration.fields.len() && (#[trigger] declaration.fields[field]).kind
                == Kind::Plain implies declaration.provided(calls, field) by {
            assert(done.slots[field] is Some);
        }
    }
    if let Err(missing) = done.built() {
        assert forall|field: int|
            0 <= field < missing.index && (#[trigger] declaration.fields[field]).kind
                == Kind::Plain implies declaration.provided(calls, field) by {
            assert(done.slots[field] is Some);
        }
    }
}

} // verus!

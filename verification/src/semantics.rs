//! The meaning of synthesized method bodies, as an interpreter over
//! record values: a builder setter assigns and returns the record by
//! value, a mutating setter assigns in place, a getter reads the
//! field. A field whose declared type was the optional-value wrapper
//! is an optional cell, and a setter with the wrap mode stores the
//! argument wrapped.

use crate::method::MethodSpec;
use crate::signature::WrapMode;
use vstd::prelude::*;

verus! {

/// Spec mirror of [`FieldVal`].
pub enum FieldValView {
    Int(u64),
    Text(Seq<char>),
    Flag(bool),
    IntList(Seq<u64>),
}

/// A plain runtime value a record field can hold.
#[derive(Debug, PartialEq, Eq)]
pub enum FieldVal {
    Int(u64),
    Text(String),
    Flag(bool),
    IntList(Vec<u64>),
}

impl View for FieldVal {
    type V = FieldValView;

    open spec fn view(&self) -> FieldValView {
        match self {
            FieldVal::Int(n) => FieldValView::Int(*n),
            FieldVal::Text(s) => FieldValView::Text(s@),
            FieldVal::Flag(b) => FieldValView::Flag(*b),
            FieldVal::IntList(v) => FieldValView::IntList(v@),
        }
    }
}

impl Clone for FieldVal {
    fn clone(&self) -> (res: Self)
        ensures
            res@ == self@,
    {
        match self {
            FieldVal::Int(n) => FieldVal::Int(*n),
            FieldVal::Text(s) => FieldVal::Text(s.clone()),
            FieldVal::Flag(b) => FieldVal::Flag(*b),
            FieldVal::IntList(v) => {
                let mut out: Vec<u64> = Vec::new();
                let mut i: usize = 0;
                while i < v.len()
                    invariant
                        i <= v.len(),
                        out@ == v@.subrange(0, i as int),
                    decreases v.len() - i,
                {
                    out.push(v[i]);
                    proof {
                        assert(out@ =~= v@.subrange(0, i + 1));
                    }
                    i = i + 1;
                }
                proof {
                    assert(v@.subrange(0, v@.len() as int) =~= v@);
                }
                FieldVal::IntList(out)
            },
        }
    }
}

/// Spec mirror of [`Slot`].
pub enum SlotView {
    Plain(FieldValView),
    OptionalCell(Option<FieldValView>),
}

/// What one record field holds at runtime: a plain value, or an
/// optional cell for a field declared with the optional-value
/// wrapper.
#[derive(Debug, PartialEq, Eq)]
pub enum Slot {
    Plain(FieldVal),
    OptionalCell(Option<FieldVal>),
}

impl View for Slot {
    type V = SlotView;

    open spec fn view(&self) -> SlotView {
        match self {
            Slot::Plain(v) => SlotView::Plain(v@),
            Slot::OptionalCell(o) => SlotView::OptionalCell(
                match o {
                    Option::Some(v) => Option::Some(v@),
                    Option::None => Option::None,
                },
            ),
        }
    }
}

impl Clone for Slot {
    fn clone(&self) -> (res: Self)
        ensures
            res@ == self@,
    {
        match self {
            Slot::Plain(v) => Slot::Plain(v.clone()),
            Slot::OptionalCell(Option::Some(v)) => Slot::OptionalCell(Option::Some(v.clone())),
            Slot::OptionalCell(Option::None) => Slot::OptionalCell(Option::None),
        }
    }
}

/// Spec mirror of [`FieldBinding`].
#[verifier::ext_equal]
pub struct FieldBindingView {
    pub name: Seq<char>,
    pub value: SlotView,
}

/// One named field of a record value.
#[derive(Debug, PartialEq, Eq)]
pub struct FieldBinding {
    pub name: String,
    pub value: Slot,
}

impl View for FieldBinding {
    type V = FieldBindingView;

    open spec fn view(&self) -> FieldBindingView {
        FieldBindingView { name: self.name@, value: self.value@ }
    }
}

/// Element-wise spec mirror of a binding list.
pub open spec fn view_bindings(s: Seq<FieldBinding>) -> Seq<FieldBindingView> {
    s.map(|i: int, b: FieldBinding| b@)
}

/// A record value: its named fields, in declaration order.
#[derive(Debug, PartialEq, Eq)]
pub struct RecordVal {
    pub bindings: Vec<FieldBinding>,
}

impl View for RecordVal {
    type V = Seq<FieldBindingView>;

    open spec fn view(&self) -> Seq<FieldBindingView> {
        view_bindings(self.bindings@)
    }
}

/// The slot a setter stores: the argument wrapped in the optional
/// constructor under `WrapInOptional`, the bare argument otherwise.
pub open spec fn spec_store(wrap: WrapMode, arg: FieldValView) -> SlotView {
    match wrap {
        WrapMode::WrapInOptional => SlotView::OptionalCell(Option::Some(arg)),
        WrapMode::Identity => SlotView::Plain(arg),
    }
}

/// Whether the record has a field of that name.
pub open spec fn spec_has_field(s: Seq<FieldBindingView>, name: Seq<char>) -> bool {
    exists|i: int| 0 <= i < s.len() && (#[trigger] s[i]).name == name
}

/// The first field of that name, if any.
pub open spec fn spec_get_field(s: Seq<FieldBindingView>, name: Seq<char>) -> Option<SlotView>
    decreases s.len(),
{
    if s.len() == 0 {
        Option::None
    } else if s[0].name == name {
        Option::Some(s[0].value)
    } else {
        spec_get_field(s.drop_first(), name)
    }
}

/// The record with the first field of that name set to `slot`; the
/// record unchanged if no field has that name.
pub open spec fn spec_set_field(
    s: Seq<FieldBindingView>,
    name: Seq<char>,
    slot: SlotView,
) -> Seq<FieldBindingView>
    decreases s.len(),
{
    if s.len() == 0 {
        s
    } else if s[0].name == name {
        seq![FieldBindingView { name: s[0].name, value: slot }] + s.drop_first()
    } else {
        seq![s[0]] + spec_set_field(s.drop_first(), name, slot)
    }
}

/// At the first index whose name matches, the get and set operations
/// act exactly there.
proof fn lemma_field_ops_at(s: Seq<FieldBindingView>, name: Seq<char>, slot: SlotView, i: int)
    requires
        0 <= i < s.len(),
        forall|j: int| 0 <= j < i ==> (#[trigger] s[j]).name != name,
        s[i].name == name,
    ensures
        spec_has_field(s, name),
        spec_get_field(s, name) == Option::Some(s[i].value),
        spec_set_field(s, name, slot) =~= s.update(
            i,
            FieldBindingView { name: s[i].name, value: slot },
        ),
    decreases i,
{
    if i == 0 {
        assert(spec_set_field(s, name, slot) =~= s.update(
            0,
            FieldBindingView { name: s[0].name, value: slot },
        ));
    } else {
        assert(s[0].name != name);
        lemma_field_ops_at(s.drop_first(), name, slot, i - 1);
        assert(s.drop_first()[i - 1] == s[i]);
        assert(spec_set_field(s, name, slot) =~= seq![s[0]] + spec_set_field(
            s.drop_first(),
            name,
            slot,
        ));
        assert(spec_set_field(s.drop_first(), name, slot) =~= s.drop_first().update(
            i - 1,
            FieldBindingView { name: s[i].name, value: slot },
        ));
        assert(spec_set_field(s, name, slot) =~= s.update(
            i,
            FieldBindingView { name: s[i].name, value: slot },
        ));
    }
}

/// Where no name matches, the get operation finds nothing and the
/// set operation changes nothing.
proof fn lemma_field_ops_absent(s: Seq<FieldBindingView>, name: Seq<char>, slot: SlotView)
    requires
        forall|j: int| 0 <= j < s.len() ==> (#[trigger] s[j]).name != name,
    ensures
        !spec_has_field(s, name),
        spec_get_field(s, name) == Option::<SlotView>::None,
        spec_set_field(s, name, slot) =~= s,
    decreases s.len(),
{
    if s.len() > 0 {
        assert(forall|j: int|
            0 <= j < s.drop_first().len() ==> (#[trigger] s.drop_first()[j]).name != name);
        lemma_field_ops_absent(s.drop_first(), name, slot);
        assert(spec_set_field(s, name, slot) =~= seq![s[0]] + s.drop_first());
        assert(spec_set_field(s, name, slot) =~= s);
    }
}

/// Reading a field right after storing into it yields the stored
/// slot, and storing never changes the record's shape: the length and
/// every other field's binding are untouched.
pub proof fn lemma_get_after_set(s: Seq<FieldBindingView>, name: Seq<char>, slot: SlotView)
    requires
        spec_has_field(s, name),
    ensures
        spec_get_field(spec_set_field(s, name, slot), name) == Option::Some(slot),
        spec_set_field(s, name, slot).len() == s.len(),
        forall|j: int|
            0 <= j < s.len() && (#[trigger] s[j]).name != name ==> spec_set_field(s, name, slot)[j]
                == s[j],
    decreases s.len(),
{
    let out = spec_set_field(s, name, slot);
    if s[0].name == name {
        assert(out =~= seq![FieldBindingView { name: s[0].name, value: slot }] + s.drop_first());
        assert(out[0].name == name);
    } else {
        let i = choose|i: int| 0 <= i < s.len() && (#[trigger] s[i]).name == name;
        assert(0 < i);
        assert(s.drop_first()[i - 1] == s[i]);
        assert(spec_has_field(s.drop_first(), name));
        lemma_get_after_set(s.drop_first(), name, slot);
        assert(out =~= seq![s[0]] + spec_set_field(s.drop_first(), name, slot));
        assert(out.drop_first() =~= spec_set_field(s.drop_first(), name, slot));
        assert forall|j: int|
            0 <= j < s.len() && (#[trigger] s[j]).name != name implies out[j] == s[j] by {
            if j > 0 {
                assert(s.drop_first()[j - 1] == s[j]);
                assert(spec_set_field(s.drop_first(), name, slot)[j - 1] == s.drop_first()[j
                    - 1]);
            }
        }
    }
}

fn find_field(rec: &RecordVal, name: &String) -> (r: Option<usize>)
    ensures
        match r {
            Option::Some(i) => i < rec@.len() && rec@[i as int].name == name@ && (forall|j: int|
                0 <= j < i as int ==> (#[trigger] rec@[j]).name != name@),
            Option::None => forall|j: int|
                0 <= j < rec@.len() ==> (#[trigger] rec@[j]).name != name@,
        },
{
    let mut i: usize = 0;
    while i < rec.bindings.len()
        invariant
            i <= rec.bindings.len(),
            rec@.len() == rec.bindings@.len(),
            forall|j: int| 0 <= j < i as int ==> (#[trigger] rec@[j]).name != name@,
        decreases rec.bindings.len() - i,
    {
        if rec.bindings[i].name.eq(name) {
            assert(rec@[i as int].name == name@);
            return Option::Some(i);
        }
        assert(rec@[i as int].name != name@);
        i = i + 1;
    }
    Option::None
}

/// Applies a builder setter: stores the argument (wrapped per the
/// method's wrap mode) into the method's field and returns the whole
/// record by value; a record with no such field comes back unchanged
/// with the failure flagged.
pub fn apply_builder_setter(rec: RecordVal, m: &MethodSpec, arg: FieldVal) -> (r: (
    RecordVal,
    bool,
))
    requires
        m@.body is BuilderSetter,
    ensures
        r.1 == spec_has_field(rec@, m@.field_name),
        r.1 ==> r.0@ == spec_set_field(rec@, m@.field_name, spec_store(m@.wrap, arg@)),
        !r.1 ==> r.0@ == rec@,
{
    let mut rec = rec;
    let ok = apply_mutating_setter(&mut rec, m, arg);
    (rec, ok)
}

/// Applies a mutating setter: stores the argument (wrapped per the
/// method's wrap mode) into the method's field in place. Returns
/// whether the record has such a field; without one nothing changes.
pub fn apply_mutating_setter(rec: &mut RecordVal, m: &MethodSpec, arg: FieldVal) -> (ok: bool)
    ensures
        ok == spec_has_field(old(rec)@, m@.field_name),
        ok ==> final(rec)@ == spec_set_field(old(rec)@, m@.field_name, spec_store(m@.wrap, arg@)),
        !ok ==> final(rec)@ == old(rec)@,
{
    let slot = match m.wrap {
        WrapMode::WrapInOptional => Slot::OptionalCell(Option::Some(arg)),
        WrapMode::Identity => Slot::Plain(arg),
    };
    match find_field(rec, &m.field_name) {
        Option::Some(i) => {
            let ghost before = rec@;
            let name = rec.bindings[i].name.clone();
            rec.bindings.set(i, FieldBinding { name, value: slot });
            proof {
                lemma_field_ops_at(
                    before,
                    m@.field_name,
                    spec_store(m@.wrap, arg@),
                    i as int,
                );
                assert(rec@ =~= before.update(
                    i as int,
                    FieldBindingView { name: before[i as int].name, value: spec_store(
                        m@.wrap,
                        arg@,
                    ) },
                ));
            }
            true
        },
        Option::None => {
            proof {
                lemma_field_ops_absent(rec@, m@.field_name, spec_store(m@.wrap, arg@));
            }
            false
        },
    }
}

/// Applies a getter: reads the method's field. The returned slot is
/// the field's current content, whether the getter returns it by
/// reference or by value.
pub fn apply_getter(rec: &RecordVal, m: &MethodSpec) -> (r: Option<Slot>)
    requires
        m@.body is Getter,
    ensures
        match r {
            Option::Some(slot) => spec_get_field(rec@, m@.field_name) == Option::Some(slot@),
            Option::None => spec_get_field(rec@, m@.field_name) is None,
        },
{
    match find_field(rec, &m.field_name) {
        Option::Some(i) => {
            proof {
                lemma_field_ops_at(
                    rec@,
                    m@.field_name,
                    SlotView::Plain(FieldValView::Flag(false)),
                    i as int,
                );
            }
            Option::Some(rec.bindings[i].value.clone())
        },
        Option::None => {
            proof {
                lemma_field_ops_absent(
                    rec@,
                    m@.field_name,
                    SlotView::Plain(FieldValView::Flag(false)),
                );
            }
            Option::None
        },
    }
}

} // verus!

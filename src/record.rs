//! The builder at run time: a schema of named, classified fields, a builder
//! holding one slot per field, and the finalizer that checks the required
//! slots and yields a record.
use vstd::prelude::*;
use crate::shape::Classification;

verus! {

/// A field value.
#[derive(Clone, Debug, PartialEq, Eq)]
pub enum Value {
    Text(String),
    UInt(u64),
    Int(i64),
    Bool(bool),
}

/// What a value means.
pub enum ValueView {
    Text(Seq<char>),
    UInt(u64),
    Int(i64),
    Bool(bool),
}

impl View for Value {
    type V = ValueView;

    open spec fn view(&self) -> ValueView {
        match self {
            Value::Text(s) => ValueView::Text(s@),
            Value::UInt(n) => ValueView::UInt(*n),
            Value::Int(n) => ValueView::Int(*n),
            Value::Bool(b) => ValueView::Bool(*b),
        }
    }
}

impl Value {
    /// A copy of the value.
    pub fn duplicate(&self) -> (r: Value)
        ensures
            r@ == self@,
    {
        match self {
            Value::Text(s) => Value::Text(s.clone()),
            Value::UInt(n) => Value::UInt(*n),
            Value::Int(n) => Value::Int(*n),
            Value::Bool(b) => Value::Bool(*b),
        }
    }
}

/// What a slot means: absent, or present with a value.
pub open spec fn slot_view(s: Option<Value>) -> Option<ValueView> {
    match s {
        Some(v) => Some(v@),
        None => None,
    }
}

/// A required field whose slot is still absent.
pub open spec fn is_missing(classes: Seq<Classification>, slots: Seq<Option<ValueView>>, i: int) -> bool {
    classes[i] == Classification::Required && slots[i] is None
}

/// The first missing field at or after `start`, in declaration order.
pub open spec fn first_missing_from(
    classes: Seq<Classification>,
    slots: Seq<Option<ValueView>>,
    start: int,
) -> Option<int>
    decreases classes.len() - start,
{
    if start < 0 || start >= classes.len() {
        None
    } else if is_missing(classes, slots, start) {
        Some(start)
    } else {
        first_missing_from(classes, slots, start + 1)
    }
}

/// The first missing field of the record, in declaration order.
pub open spec fn first_missing(classes: Seq<Classification>, slots: Seq<Option<ValueView>>) -> Option<int> {
    first_missing_from(classes, slots, 0)
}

/// The message that reports a missing field.
pub open spec fn missing_message(name: Seq<char>) -> Seq<char> {
    "required field '"@ + name + "' is missing"@
}

/// `required field '<name>' is missing`.
pub fn missing_field_message(name: &str) -> (r: String)
    ensures
        r@ == missing_message(name@),
{
    let mut m = String::from_str("required field '");
    m.append(name);
    m.append("' is missing");
    m
}

/// The first missing field at or after `start` is missing itself, and no
/// field between `start` and it is; where there is none, no field from
/// `start` on is missing.
pub proof fn lemma_first_missing_from(classes: Seq<Classification>, slots: Seq<Option<ValueView>>, start: int)
    requires
        0 <= start,
    ensures
        match first_missing_from(classes, slots, start) {
            Some(k) => {
                &&& start <= k < classes.len()
                &&& is_missing(classes, slots, k)
                &&& forall|j: int| start <= j < k ==> !is_missing(classes, slots, j)
            },
            None => forall|j: int| start <= j < classes.len() ==> !is_missing(classes, slots, j),
        },
    decreases classes.len() - start,
{
    if start < classes.len() && !is_missing(classes, slots, start) {
        lemma_first_missing_from(classes, slots, start + 1);
    }
}

/// The finalizer reports the first unset required field in declaration
/// order: the field it names is required and unset, and every field before
/// it is set or optional. When two required fields are unset, the later one
/// is never the one reported.
pub proof fn law_first_missing_wins(classes: Seq<Classification>, slots: Seq<Option<ValueView>>, i: int, j: int)
    requires
        0 <= i < j < classes.len(),
        is_missing(classes, slots, i),
        is_missing(classes, slots, j),
    ensures
        first_missing(classes, slots) is Some,
        first_missing(classes, slots)->0 <= i,
        first_missing(classes, slots) != Some(j),
        is_missing(classes, slots, first_missing(classes, slots)->0),
        forall|k: int| 0 <= k < first_missing(classes, slots)->0 ==> !is_missing(classes, slots, k),
{
    lemma_first_missing_from(classes, slots, 0);
}

/// The slots after the mutators of the first `n` fields, in declaration
/// order, have been called with `values`.
pub open spec fn set_each(slots: Seq<Option<ValueView>>, values: Seq<ValueView>, n: int) -> Seq<Option<ValueView>>
    decreases n,
{
    if n <= 0 {
        slots
    } else {
        set_each(slots, values, n - 1).update(n - 1, Some(values[n - 1]))
    }
}

proof fn lemma_set_each(len: nat, values: Seq<ValueView>, n: int)
    requires
        0 <= n <= len,
        values.len() == len,
    ensures
        set_each(Seq::new(len, |i: int| None::<ValueView>), values, n) =~= Seq::new(
            len,
            |i: int| if i < n { Some(values[i]) } else { None },
        ),
    decreases n,
{
    if n > 0 {
        lemma_set_each(len, values, n - 1);
    }
}

/// A record whose fields are all required, built after the mutator of
/// every field was called on a fresh builder, is built, and each of its
/// fields holds the value that was passed for it.
pub proof fn law_round_trip(classes: Seq<Classification>, values: Seq<ValueView>)
    requires
        classes.len() == values.len(),
        forall|i: int| 0 <= i < classes.len() ==> classes[i] == Classification::Required,
    ensures
        set_each(Seq::new(values.len(), |i: int| None::<ValueView>), values, values.len() as int)
            == values.map_values(|v: ValueView| Some(v)),
        first_missing(classes, values.map_values(|v: ValueView| Some(v))) is None,
{
    let slots = values.map_values(|v: ValueView| Some(v));
    lemma_set_each(values.len(), values, values.len() as int);
    assert(set_each(Seq::new(values.len(), |i: int| None::<ValueView>), values, values.len() as int) =~= slots);
    lemma_first_missing_from(classes, slots, 0);
    if first_missing(classes, slots) is Some {
        let k = first_missing(classes, slots)->0;
        assert(slots[k] is Some);
    }
}

/// An optional field left unset never makes the finalizer fail, whatever
/// else is set: the record is built exactly when every required field is
/// set, and then that field holds no value.
pub proof fn law_optional_default(classes: Seq<Classification>, slots: Seq<Option<ValueView>>, i: int)
    requires
        classes.len() == slots.len(),
        0 <= i < classes.len(),
        classes[i] == Classification::Optional,
        slots[i] is None,
    ensures
        first_missing(classes, slots) != Some(i),
        first_missing(classes, slots) is None <==> forall|j: int|
            0 <= j < classes.len() && classes[j] == Classification::Required ==> slots[j] is Some,
{
    lemma_first_missing_from(classes, slots, 0);
    if first_missing(classes, slots) is None {
        assert forall|j: int|
            0 <= j < classes.len() && classes[j] == Classification::Required implies slots[j] is Some by {
            assert(!is_missing(classes, slots, j));
        }
    }
}

/// A required field left unset makes the finalizer fail; it is the field
/// reported when every field before it is set or optional; and once it is
/// set it is no longer reported.
pub proof fn law_required_gating(
    classes: Seq<Classification>,
    slots: Seq<Option<ValueView>>,
    i: int,
    v: ValueView,
)
    requires
        classes.len() == slots.len(),
        0 <= i < classes.len(),
        classes[i] == Classification::Required,
        slots[i] is None,
    ensures
        first_missing(classes, slots) is Some,
        (forall|j: int| 0 <= j < i ==> !is_missing(classes, slots, j)) ==> first_missing(classes, slots) == Some(i),
        first_missing(classes, slots.update(i, Some(v))) != Some(i),
{
    lemma_first_missing_from(classes, slots, 0);
    lemma_first_missing_from(classes, slots.update(i, Some(v)), 0);
    assert(is_missing(classes, slots, i));
}

/// Setting two different fields gives the same slots in either order, and
/// setting one field twice keeps the second value.
pub proof fn law_chaining(slots: Seq<Option<ValueView>>, i: int, j: int, a: ValueView, b: ValueView)
    requires
        0 <= i < slots.len(),
        0 <= j < slots.len(),
    ensures
        i != j ==> slots.update(i, Some(a)).update(j, Some(b)) == slots.update(j, Some(b)).update(i, Some(a)),
        slots.update(i, Some(a)).update(i, Some(b)) == slots.update(i, Some(b)),
{
    if i != j {
        assert(slots.update(i, Some(a)).update(j, Some(b)) =~= slots.update(j, Some(b)).update(i, Some(a)));
    }
    assert(slots.update(i, Some(a)).update(i, Some(b)) =~= slots.update(i, Some(b)));
}

/// One field of a schema.
#[derive(Clone, Debug, PartialEq, Eq)]
pub struct FieldSpec {
    pub name: String,
    pub class: Classification,
}

/// The fields of a record, in declaration order.
#[derive(Clone, Debug, PartialEq, Eq)]
pub struct Schema {
    pub fields: Vec<FieldSpec>,
}

impl Schema {
    pub open spec fn names(&self) -> Seq<Seq<char>> {
        self.fields@.map_values(|f: FieldSpec| f.name@)
    }

    pub open spec fn classes(&self) -> Seq<Classification> {
        self.fields@.map_values(|f: FieldSpec| f.class)
    }

    /// A builder for this schema with every slot absent.
    pub fn builder(&self) -> (b: RecordBuilder)
        ensures
            b.wf(),
            b.names() == self.names(),
            b.classes() == self.classes(),
            b.slots() == Seq::new(self.fields@.len(), |i: int| None::<ValueView>),
    {
        let mut names: Vec<String> = Vec::new();
        let mut classes: Vec<Classification> = Vec::new();
        let mut slots: Vec<Option<Value>> = Vec::new();
        let mut i: usize = 0;
        while i < self.fields.len()
            invariant
                i <= self.fields@.len(),
                names@.len() == i,
                classes@.len() == i,
                slots@.len() == i,
                forall|k: int| 0 <= k < i ==> #[trigger] names@[k]@ == self.fields@[k].name@,
                forall|k: int| 0 <= k < i ==> #[trigger] classes@[k] == self.fields@[k].class,
                forall|k: int| 0 <= k < i ==> #[trigger] slots@[k] is None,
            decreases self.fields@.len() - i,
        {
            names.push(self.fields[i].name.clone());
            classes.push(self.fields[i].class);
            slots.push(None);
            i = i + 1;
        }
        let b = RecordBuilder { names, classes, slots };
        assert(b.names() =~= self.names());
        assert(b.classes() =~= self.classes());
        assert(b.slots() =~= Seq::new(self.fields@.len(), |i: int| None::<ValueView>));
        b
    }
}

/// A builder: one slot per field of its schema.
#[derive(Debug)]
pub struct RecordBuilder {
    names: Vec<String>,
    classes: Vec<Classification>,
    slots: Vec<Option<Value>>,
}

/// A record built from a builder whose required slots were all present.
#[derive(Debug)]
pub struct Record {
    values: Vec<Option<Value>>,
}

/// Why a record could not be built: the first required field left unset.
#[derive(Clone, Debug, PartialEq, Eq)]
pub struct MissingField {
    pub index: usize,
    pub name: String,
}

impl MissingField {
    /// `required field '<name>' is missing`.
    pub fn message(&self) -> (r: String)
        ensures
            r@ == missing_message(self.name@),
    {
        missing_field_message(self.name.as_str())
    }
}

impl Record {
    pub closed spec fn view(&self) -> Seq<Option<ValueView>> {
        self.values@.map_values(|s: Option<Value>| slot_view(s))
    }

    /// The number of fields.
    pub fn len(&self) -> (r: usize)
        ensures
            r == self.view().len(),
    {
        self.values.len()
    }

    /// The value of the field at `index`; `None` for an optional field left unset.
    pub fn value(&self, index: usize) -> (r: &Option<Value>)
        requires
            index < self.view().len(),
        ensures
            slot_view(*r) == self.view()[index as int],
    {
        &self.values[index]
    }
}

impl RecordBuilder {
    pub closed spec fn names(&self) -> Seq<Seq<char>> {
        self.names@.map_values(|s: String| s@)
    }

    pub closed spec fn classes(&self) -> Seq<Classification> {
        self.classes@
    }

    pub closed spec fn slots(&self) -> Seq<Option<ValueView>> {
        self.slots@.map_values(|s: Option<Value>| slot_view(s))
    }

    pub open spec fn wf(&self) -> bool {
        &&& self.names().len() == self.classes().len()
        &&& self.slots().len() == self.classes().len()
    }

    /// The number of fields.
    pub fn len(&self) -> (r: usize)
        requires
            self.wf(),
        ensures
            r == self.slots().len(),
    {
        self.slots.len()
    }

    /// Sets the slot of the field at `index` to `value` and hands the
    /// builder back for further calls.
    pub fn set(&mut self, index: usize, value: Value) -> (r: &mut RecordBuilder)
        requires
            old(self).wf(),
            index < old(self).slots().len(),
        ensures
            r.wf(),
            r.names() == old(self).names(),
            r.classes() == old(self).classes(),
            r.slots() == old(self).slots().update(index as int, Some(value@)),
            *final(self) == *final(r),
    {
        self.slots.set(index, Some(value));
        assert(self.slots() =~= old(self).slots().update(index as int, Some(value@)));
        self
    }

    /// The record, or the first required field, in declaration order, whose
    /// slot is absent. The slots are left as they are.
    pub fn build(&self) -> (r: Result<Record, MissingField>)
        requires
            self.wf(),
        ensures
            match r {
                Ok(rec) => {
                    &&& first_missing(self.classes(), self.slots()) is None
                    &&& rec.view() == self.slots()
                },
                Err(e) => {
                    &&& first_missing(self.classes(), self.slots()) == Some(e.index as int)
                    &&& e.name@ == self.names()[e.index as int]
                },
            },
    {
        let ghost classes = self.classes();
        let ghost slots = self.slots();
        let mut i: usize = 0;
        while i < self.classes.len()
            invariant
                self.wf(),
                classes == self.classes(),
                slots == self.slots(),
                i <= classes.len(),
                first_missing(classes, slots) == first_missing_from(classes, slots, i as int),
            decreases classes.len() - i,
        {
            if self.classes[i] == Classification::Required && self.slots[i].is_none() {
                assert(is_missing(classes, slots, i as int));
                return Err(MissingField { index: i, name: self.names[i].clone() });
            }
            assert(!is_missing(classes, slots, i as int));
            i = i + 1;
        }
        let mut values: Vec<Option<Value>> = Vec::new();
        let mut j: usize = 0;
        while j < self.slots.len()
            invariant
                self.wf(),
                slots == self.slots(),
                j <= slots.len(),
                values@.len() == j,
                forall|k: int| 0 <= k < j ==> slot_view(#[trigger] values@[k]) == slots[k],
            decreases slots.len() - j,
        {
            let v = match &self.slots[j] {
                Some(x) => Some(x.duplicate()),
                None => None,
            };
            values.push(v);
            j = j + 1;
        }
        let rec = Record { values };
        assert(rec.view() =~= slots);
        Ok(rec)
    }
}

} // verus!

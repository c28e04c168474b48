use crate::ids::TaskId;
use crate::opaque::{ReferenceData, SharedReference, SharedValue, ValueData};
use vstd::prelude::*;

verus! {

/// A lazy reference to a value that some task will produce: either the
/// task's overall output, or one specific cell ("slot") the task owns.
/// It never contains data itself — it is pure indirection.
#[derive(Clone, Copy, PartialEq, Eq, Structural, Debug, Hash)]
pub enum RawVc {
    TaskOutput(TaskId),
    TaskSlot(TaskId, usize),
}

/// What a backend cell holds: an already-computed shared value, or
/// nothing at all.
#[derive(Debug)]
pub struct SlotContent(pub Option<SharedReference>);

impl View for SlotContent {
    type V = Option<ReferenceData>;

    open spec fn view(&self) -> Option<ReferenceData> {
        match self.0 {
            Some(r) => Some(r@),
            None => None,
        }
    }
}

/// The tagged union flowing between tasks, used both as a task's call
/// arguments and as the contents of a resolved cell: indirections,
/// primitives, nested lists and opaque application values.
#[derive(Debug, PartialEq)]
pub enum TaskInput {
    TaskOutput(TaskId),
    TaskSlot(TaskId, usize),
    List(Vec<TaskInput>),
    String(String),
    Bool(bool),
    Usize(usize),
    I32(i32),
    U32(u32),
    Nothing,
    SharedValue(SharedValue),
    SharedReference(SharedReference),
}

/// Mathematical model of a [`TaskInput`].
pub enum InputData {
    TaskOutput(TaskId),
    TaskSlot(TaskId, usize),
    List(Seq<InputData>),
    String(Seq<char>),
    Bool(bool),
    Usize(usize),
    I32(i32),
    U32(u32),
    Nothing,
    SharedValue(ValueData),
    SharedReference(ReferenceData),
}

/// Maps an input to its mathematical model, elementwise through lists.
pub open spec fn input_data_of(x: TaskInput) -> InputData
    decreases x,
{
    match x {
        TaskInput::TaskOutput(t) => InputData::TaskOutput(t),
        TaskInput::TaskSlot(t, i) => InputData::TaskSlot(t, i),
        TaskInput::List(l) => InputData::List(
            Seq::new(
                l@.len(),
                |i: int| if 0 <= i < l@.len() { input_data_of(l@[i]) } else { InputData::Nothing },
            ),
        ),
        TaskInput::String(s) => InputData::String(s@),
        TaskInput::Bool(b) => InputData::Bool(b),
        TaskInput::Usize(v) => InputData::Usize(v),
        TaskInput::I32(v) => InputData::I32(v),
        TaskInput::U32(v) => InputData::U32(v),
        TaskInput::Nothing => InputData::Nothing,
        TaskInput::SharedValue(v) => InputData::SharedValue(v@),
        TaskInput::SharedReference(r) => InputData::SharedReference(r@),
    }
}

impl View for TaskInput {
    type V = InputData;

    open spec fn view(&self) -> InputData {
        input_data_of(*self)
    }
}

/// A value is resolved when it contains no task-output indirection
/// anywhere in its structure; for a list this is the conjunction over the
/// elements. Slot indirections are by convention not chased by this
/// lightweight check.
pub open spec fn is_resolved_data(x: InputData) -> bool
    decreases x,
{
    match x {
        InputData::TaskOutput(_) => false,
        InputData::List(l) => forall|i: int| 0 <= i < l.len() ==> is_resolved_data(#[trigger] l[i]),
        _ => true,
    }
}

/// The model of a list input is the elementwise model of its elements.
pub proof fn lemma_list_view(x: TaskInput, l: Vec<TaskInput>)
    requires
        x == TaskInput::List(l),
    ensures
        x@ is List,
        x@->List_0.len() == l@.len(),
        forall|i: int| 0 <= i < l@.len() ==> #[trigger] x@->List_0[i] == l@[i]@,
{
}

impl TaskInput {
    /// Extracts the task id from either indirection variant.
    pub fn get_task_id(&self) -> (r: Option<TaskId>)
        ensures
            r == (match self@ {
                InputData::TaskOutput(t) => Some(t),
                InputData::TaskSlot(t, _) => Some(t),
                _ => None::<TaskId>,
            }),
    {
        match self {
            TaskInput::TaskOutput(t) => Some(*t),
            TaskInput::TaskSlot(t, _) => Some(*t),
            _ => None,
        }
    }

    /// True only for the explicit "no value" sentinel.
    pub fn is_nothing(&self) -> (r: bool)
        ensures
            r == (self@ is Nothing),
    {
        match self {
            TaskInput::Nothing => true,
            _ => false,
        }
    }

    /// Pure, synchronous structural check for resolved-ness; performs no
    /// backend reads.
    pub fn is_resolved(&self) -> (r: bool)
        ensures
            r == is_resolved_data(self@),
        decreases *self,
    {
        match self {
            TaskInput::TaskOutput(_) => false,
            TaskInput::List(l) => {
                proof {
                    lemma_list_view(*self, *l);
                }
                let mut i: usize = 0;
                while i < l.len()
                    invariant
                        0 <= i <= l@.len(),
                        *self == TaskInput::List(*l),
                        self@ is List && self@->List_0.len() == l@.len(),
                        forall|j: int| 0 <= j < l@.len() ==> #[trigger] self@->List_0[j] == l@[j]@,
                        forall|j: int| 0 <= j < i ==> is_resolved_data(#[trigger] l@[j]@),
                    decreases l@.len() - i,
                {
                    proof {
                        assert(decreases_to!(*self => *l));
                        assert(decreases_to!(*l => l@[i as int]));
                    }
                    let resolved = l[i].is_resolved();
                    if !resolved {
                        proof {
                            assert(!is_resolved_data(self@->List_0[i as int]));
                        }
                        return false;
                    }
                    i += 1;
                }
                proof {
                    assert(forall|j: int| 0 <= j < self@->List_0.len()
                        ==> is_resolved_data(#[trigger] self@->List_0[j]));
                }
                true
            },
            _ => true,
        }
    }
}

impl TaskInput {
    /// Copies an input; the copy has the same model. Shared wrappers in
    /// the copy share their allocations with the original.
    #[verifier::loop_isolation(false)]
    pub fn duplicate(&self) -> (r: TaskInput)
        ensures
            r@ == self@,
        decreases *self,
    {
        match self {
            TaskInput::TaskOutput(t) => TaskInput::TaskOutput(*t),
            TaskInput::TaskSlot(t, i) => TaskInput::TaskSlot(*t, *i),
            TaskInput::List(l) => {
                proof {
                    lemma_list_view(*self, *l);
                }
                let mut out: Vec<TaskInput> = Vec::new();
                let mut i: usize = 0;
                while i < l.len()
                    invariant
                        0 <= i <= l@.len(),
                        *self == TaskInput::List(*l),
                        out@.len() == i,
                        forall|j: int| 0 <= j < i ==> #[trigger] out@[j]@ == l@[j]@,
                    decreases l@.len() - i,
                {
                    proof {
                        assert(decreases_to!(TaskInput::List(*l) => *l));
                        assert(decreases_to!(*self => *l));
                        assert(decreases_to!(*l => l@[i as int]));
                    }
                    let d = l[i].duplicate();
                    out.push(d);
                    i += 1;
                }
                let r = TaskInput::List(out);
                proof {
                    lemma_list_view(r, out);
                    assert(r@->List_0 =~= self@->List_0);
                }
                r
            },
            TaskInput::String(s) => TaskInput::String(s.clone()),
            TaskInput::Bool(b) => TaskInput::Bool(*b),
            TaskInput::Usize(v) => TaskInput::Usize(*v),
            TaskInput::I32(v) => TaskInput::I32(*v),
            TaskInput::U32(v) => TaskInput::U32(*v),
            TaskInput::Nothing => TaskInput::Nothing,
            TaskInput::SharedValue(v) => TaskInput::SharedValue(v.duplicate()),
            TaskInput::SharedReference(data) => TaskInput::SharedReference(data.duplicate()),
        }
    }
}

impl From<RawVc> for TaskInput {
    /// A cell reference embeds into the input union unchanged.
    fn from(raw_vc: RawVc) -> (r: TaskInput) {
        match raw_vc {
            RawVc::TaskOutput(task) => TaskInput::TaskOutput(task),
            RawVc::TaskSlot(task, i) => TaskInput::TaskSlot(task, i),
        }
    }
}

impl vstd::std_specs::convert::FromSpecImpl<RawVc> for TaskInput {
    open spec fn obeys_from_spec() -> bool {
        true
    }

    open spec fn from_spec(raw_vc: RawVc) -> TaskInput {
        match raw_vc {
            RawVc::TaskOutput(task) => TaskInput::TaskOutput(task),
            RawVc::TaskSlot(task, i) => TaskInput::TaskSlot(task, i),
        }
    }
}

impl From<SlotContent> for TaskInput {
    /// An absent cell maps to the explicit sentinel; a present one to a
    /// reference-form opaque value.
    fn from(content: SlotContent) -> (r: TaskInput) {
        match content {
            SlotContent(None) => TaskInput::Nothing,
            SlotContent(Some(shared_ref)) => TaskInput::SharedReference(shared_ref),
        }
    }
}

impl vstd::std_specs::convert::FromSpecImpl<SlotContent> for TaskInput {
    open spec fn obeys_from_spec() -> bool {
        true
    }

    open spec fn from_spec(content: SlotContent) -> TaskInput {
        match content {
            SlotContent(None) => TaskInput::Nothing,
            SlotContent(Some(shared_ref)) => TaskInput::SharedReference(shared_ref),
        }
    }
}

} // verus!

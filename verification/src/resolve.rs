use crate::ids::TaskId;
use crate::input::{is_resolved_data, lemma_list_view, InputData, SlotContent, TaskInput};
use crate::opaque::{ReferenceData, SharedReference};
use vstd::prelude::*;

verus! {

/// Failure of a resolution step.
#[derive(Clone, Copy, PartialEq, Eq, Structural, Debug)]
pub enum ResolveError {
    /// The backend has no output recorded for the task.
    UnknownTask(TaskId),
    /// The indirection chain was deeper than the caller's depth budget.
    DepthExceeded,
}

/// The backend store resolution reads from: each task's recorded output,
/// the contents of each task's cells, and a counter of the reads
/// performed, so that callers can observe how much input/output a
/// resolution cost.
#[derive(Debug)]
pub struct Backend {
    pub outputs: Vec<(TaskId, TaskInput)>,
    pub slots: Vec<(TaskId, usize, Option<SharedReference>)>,
    pub reads: u64,
}

/// Mathematical model of the store's contents (the read counter is
/// observable separately, through [`Backend::reads`]).
pub struct BackendData {
    pub outputs: Seq<(TaskId, InputData)>,
    pub slots: Seq<(TaskId, usize, Option<ReferenceData>)>,
}

/// First recorded output for the task, scanning from position `i`.
pub open spec fn output_from(outputs: Seq<(TaskId, InputData)>, t: TaskId, i: int) -> Option<
    InputData,
>
    decreases outputs.len() - i,
{
    if i < 0 || i >= outputs.len() {
        None
    } else if outputs[i].0 == t {
        Some(outputs[i].1)
    } else {
        output_from(outputs, t, i + 1)
    }
}

/// The task's recorded output, absent when the task is unknown.
pub open spec fn output_of(m: BackendData, t: TaskId) -> Option<InputData> {
    output_from(m.outputs, t, 0)
}

/// First recorded content for the task's cell, scanning from position
/// `i`; a cell with no record is simply empty.
pub open spec fn slot_from(
    slots: Seq<(TaskId, usize, Option<ReferenceData>)>,
    t: TaskId,
    index: usize,
    i: int,
) -> Option<ReferenceData>
    decreases slots.len() - i,
{
    if i < 0 || i >= slots.len() {
        None
    } else if slots[i].0 == t && slots[i].1 == index {
        slots[i].2
    } else {
        slot_from(slots, t, index, i + 1)
    }
}

/// The content of the task's cell; empty cells read as absent.
pub open spec fn slot_of(m: BackendData, t: TaskId, index: usize) -> Option<ReferenceData> {
    slot_from(m.slots, t, index, 0)
}

/// The input a cell read hands back: the sentinel for an empty cell, a
/// reference-form wrapper otherwise.
pub open spec fn slot_data(c: Option<ReferenceData>) -> InputData {
    match c {
        None => InputData::Nothing,
        Some(r) => InputData::SharedReference(r),
    }
}

/// One step short of `n + 1`: the read counter saturates instead of
/// wrapping.
pub open spec fn sat_inc(n: u64) -> u64 {
    if n == u64::MAX {
        n
    } else {
        (n + 1) as u64
    }
}

impl Backend {
    /// The store's contents.
    pub open spec fn model(&self) -> BackendData {
        BackendData {
            outputs: Seq::new(
                self.outputs@.len(),
                |i: int| if 0 <= i < self.outputs@.len() {
                    (self.outputs@[i].0, self.outputs@[i].1@)
                } else {
                    (TaskId { id: 0 }, InputData::Nothing)
                },
            ),
            slots: Seq::new(
                self.slots@.len(),
                |i: int| if 0 <= i < self.slots@.len() {
                    (self.slots@[i].0, self.slots@[i].1, match self.slots@[i].2 {
                        Some(r) => Some(r@),
                        None => None,
                    })
                } else {
                    (TaskId { id: 0 }, 0usize, None)
                },
            ),
        }
    }

    /// An empty store that has served no reads.
    pub fn new() -> (r: Backend)
        ensures
            r.model().outputs.len() == 0,
            r.model().slots.len() == 0,
            r.reads == 0,
    {
        Backend { outputs: Vec::new(), slots: Vec::new(), reads: 0 }
    }

    /// Records a task's output.
    #[verifier::loop_isolation(false)]
    pub fn set_task_output(&mut self, t: TaskId, v: TaskInput)
        ensures
            final(self).model().outputs == old(self).model().outputs.push((t, v@)),
            final(self).model().slots == old(self).model().slots,
            final(self).reads == old(self).reads,
    {
        self.outputs.push((t, v));
        proof {
            assert(self.model().outputs =~= old(self).model().outputs.push((t, v@)));
            assert(self.model().slots =~= old(self).model().slots);
        }
    }

    /// Records the content of a task's cell.
    #[verifier::loop_isolation(false)]
    pub fn set_task_slot(&mut self, t: TaskId, index: usize, c: Option<SharedReference>)
        ensures
            final(self).model().slots == old(self).model().slots.push(
                (t, index, match c {
                    Some(r) => Some(r@),
                    None => None,
                }),
            ),
            final(self).model().outputs == old(self).model().outputs,
            final(self).reads == old(self).reads,
    {
        let ghost cd = match &c {
            Some(r) => Some(r@),
            None => None,
        };
        self.slots.push((t, index, c));
        proof {
            assert(self.model().slots =~= old(self).model().slots.push((t, index, cd)));
            assert(self.model().outputs =~= old(self).model().outputs);
        }
    }

    /// Reads a task's recorded output; fails when the task is unknown.
    /// Counts as one backend read either way.
    #[verifier::loop_isolation(false)]
    pub fn read_task_output(&mut self, t: TaskId) -> (r: Result<TaskInput, ResolveError>)
        ensures
            final(self).model() == old(self).model(),
            final(self).reads == sat_inc(old(self).reads),
            match output_of(old(self).model(), t) {
                Some(v) => r matches Ok(out) && out@ == v,
                None => r == Err::<TaskInput, ResolveError>(ResolveError::UnknownTask(t)),
            },
    {
        if self.reads < u64::MAX {
            self.reads = self.reads + 1;
        }
        proof {
            assert(self.model().outputs =~= old(self).model().outputs);
            assert(self.model().slots =~= old(self).model().slots);
        }
        let mut i: usize = 0;
        while i < self.outputs.len()
            invariant
                0 <= i <= self.outputs@.len(),
                output_of(self.model(), t) == output_from(self.model().outputs, t, i as int),
            decreases self.outputs@.len() - i,
        {
            let entry = &self.outputs[i];
            if entry.0.id == t.id {
                return Ok(entry.1.duplicate());
            }
            i += 1;
        }
        Err(ResolveError::UnknownTask(t))
    }

    /// Reads the content of a task's cell; an unrecorded cell is empty.
    /// Counts as one backend read.
    #[verifier::loop_isolation(false)]
    pub fn read_task_slot(&mut self, t: TaskId, index: usize) -> (r: SlotContent)
        ensures
            final(self).model() == old(self).model(),
            final(self).reads == sat_inc(old(self).reads),
            r@ == slot_of(old(self).model(), t, index),
    {
        if self.reads < u64::MAX {
            self.reads = self.reads + 1;
        }
        proof {
            assert(self.model().outputs =~= old(self).model().outputs);
            assert(self.model().slots =~= old(self).model().slots);
        }
        let mut i: usize = 0;
        while i < self.slots.len()
            invariant
                0 <= i <= self.slots@.len(),
                slot_of(self.model(), t, index) == slot_from(self.model().slots, t, index, i as int),
            decreases self.slots@.len() - i,
        {
            let entry = &self.slots[i];
            if entry.0.id == t.id && entry.1 == index {
                match &entry.2 {
                    Some(shared_ref) => {
                        return SlotContent(Some(shared_ref.duplicate()));
                    },
                    None => {
                        return SlotContent(None);
                    },
                }
            }
            i += 1;
        }
        SlotContent(None)
    }
}

/// A result of resolution, with the produced input replaced by its model.
pub open spec fn result_data(r: Result<TaskInput, ResolveError>) -> Result<
    InputData,
    ResolveError,
> {
    match r {
        Ok(v) => Ok(v@),
        Err(e) => Err(e),
    }
}

/// What chasing a chain of indirections yields, and how many backend
/// reads it takes. Both output and cell indirections are followed, each
/// step one read, until a value that is neither — or until the depth
/// budget `fuel` is exhausted, or an unknown task fails the chain. The
/// chase never descends into lists.
pub open spec fn chase(m: BackendData, x: InputData, fuel: nat) -> (Result<
    InputData,
    ResolveError,
>, nat)
    decreases fuel,
{
    match x {
        InputData::TaskOutput(t) => {
            if fuel == 0 {
                (Err(ResolveError::DepthExceeded), 0)
            } else {
                match output_of(m, t) {
                    Some(v) => {
                        let r = chase(m, v, (fuel - 1) as nat);
                        (r.0, r.1 + 1)
                    },
                    None => (Err(ResolveError::UnknownTask(t)), 1),
                }
            }
        },
        InputData::TaskSlot(t, index) => {
            if fuel == 0 {
                (Err(ResolveError::DepthExceeded), 0)
            } else {
                let r = chase(m, slot_data(slot_of(m, t, index)), (fuel - 1) as nat);
                (r.0, r.1 + 1)
            }
        },
        _ => (Ok(x), 0),
    }
}

/// What full resolution yields: output indirections are chased as in
/// [`chase`] (cell indirections are deliberately left alone by this entry
/// point), and a terminal list is resolved elementwise, each element with
/// the remaining depth budget; an already-resolved list is left exactly
/// as it is. When elements fail, the first failure in positional order is
/// the result.
pub open spec fn resolve_data(m: BackendData, x: InputData, fuel: nat) -> Result<
    InputData,
    ResolveError,
>
    decreases fuel, x, 0nat,
{
    match x {
        InputData::TaskOutput(t) => {
            if fuel == 0 {
                Err(ResolveError::DepthExceeded)
            } else {
                match output_of(m, t) {
                    Some(v) => resolve_data(m, v, (fuel - 1) as nat),
                    None => Err(ResolveError::UnknownTask(t)),
                }
            }
        },
        InputData::List(l) => {
            if is_resolved_data(x) {
                Ok(x)
            } else {
                match resolve_list(m, l, fuel, 0) {
                    Ok(s) => Ok(InputData::List(s)),
                    Err(e) => Err(e),
                }
            }
        },
        _ => Ok(x),
    }
}

/// Elementwise resolution of a list's tail from position `i` on: the
/// resolved elements in their original positional order, or the first
/// element failure.
pub open spec fn resolve_list(m: BackendData, l: Seq<InputData>, fuel: nat, i: int) -> Result<
    Seq<InputData>,
    ResolveError,
>
    decreases fuel, l, l.len() - i,
{
    if i < 0 || i >= l.len() {
        Ok(Seq::empty())
    } else {
        match resolve_data(m, l[i], fuel) {
            Ok(v) => match resolve_list(m, l, fuel, i + 1) {
                Ok(s) => Ok(seq![v] + s),
                Err(e) => Err(e),
            },
            Err(e) => Err(e),
        }
    }
}

/// Resolving an already-resolved value changes nothing, whatever the
/// store holds and whatever the budget — in particular, no list element
/// is touched.
pub proof fn lemma_resolved_fast_path(m: BackendData, x: InputData, fuel: nat)
    requires
        is_resolved_data(x),
    ensures
        resolve_data(m, x, fuel) == Ok::<InputData, ResolveError>(x),
{
}

impl TaskInput {
    /// Iteratively eliminates both output and cell indirections by
    /// reading from the backend until the value is neither — chasing a
    /// chain of indirections down to a terminal value without descending
    /// into lists. Each step costs exactly one backend read, visible in
    /// the store's counter. `budget` bounds the depth of the chase: a
    /// cyclic task graph would otherwise never resolve.
    #[verifier::loop_isolation(false)]
    pub fn resolve_to_value(self, backend: &mut Backend, budget: u64) -> (r: Result<
        TaskInput,
        ResolveError,
    >)
        requires
            old(backend).reads + budget <= u64::MAX,
        ensures
            final(backend).model() == old(backend).model(),
            result_data(r) == chase(old(backend).model(), self@, budget as nat).0,
            final(backend).reads == old(backend).reads + chase(
                old(backend).model(),
                self@,
                budget as nat,
            ).1,
    {
        let ghost m = backend.model();
        let mut current = self;
        let mut remaining = budget;
        loop
            invariant
                backend.model() == m,
                remaining <= budget,
                backend.reads == old(backend).reads + budget - remaining,
                chase(m, self@, budget as nat).0 == chase(m, current@, remaining as nat).0,
                chase(m, self@, budget as nat).1 == chase(m, current@, remaining as nat).1
                    + budget - remaining,
            decreases remaining,
        {
            match current {
                TaskInput::TaskOutput(t) => {
                    if remaining == 0 {
                        return Err(ResolveError::DepthExceeded);
                    }
                    match backend.read_task_output(t) {
                        Ok(v) => {
                            current = v;
                            remaining = remaining - 1;
                        },
                        Err(e) => {
                            return Err(e);
                        },
                    }
                },
                TaskInput::TaskSlot(t, index) => {
                    if remaining == 0 {
                        return Err(ResolveError::DepthExceeded);
                    }
                    let content = backend.read_task_slot(t, index);
                    let ghost cd = content@;
                    current = TaskInput::from(content);
                    proof {
                        assert(current@ == slot_data(cd));
                    }
                    remaining = remaining - 1;
                },
                other => {
                    return Ok(other);
                },
            }
        }
    }

    /// Eliminates output indirections as [`TaskInput::resolve_to_value`]
    /// does, and additionally guarantees that a terminal list is resolved
    /// elementwise, recursively. An already-resolved list returns at once
    /// without any backend read. Cell indirections are deliberately not
    /// chased by this entry point. Elements are resolved in positional
    /// order and the first failing element decides the error.
    #[verifier::loop_isolation(false)]
    #[verifier::rlimit(80)]
    pub fn resolve(self, backend: &mut Backend, budget: u64) -> (r: Result<TaskInput, ResolveError>)
        ensures
            final(backend).model() == old(backend).model(),
            result_data(r) == resolve_data(old(backend).model(), self@, budget as nat),
            is_resolved_data(self@) ==> final(backend).reads == old(backend).reads,
        decreases budget, self, 1nat,
    {
        let ghost m = backend.model();
        match self {
            TaskInput::TaskOutput(t) => {
                if budget == 0 {
                    return Err(ResolveError::DepthExceeded);
                }
                match backend.read_task_output(t) {
                    Ok(v) => v.resolve(backend, budget - 1),
                    Err(e) => Err(e),
                }
            },
            TaskInput::List(l) => {
                proof {
                    lemma_list_view(self, l);
                }
                let all = all_resolved(&l);
                if all {
                    let r = TaskInput::List(l);
                    proof {
                        lemma_list_view(r, l);
                        assert(r@->List_0 =~= self@->List_0);
                        assert(is_resolved_data(self@));
                    }
                    return Ok(r);
                }
                let ghost lspec = self@->List_0;
                proof {
                    let j0 = choose|j: int| 0 <= j < l@.len() && !is_resolved_data(l@[j]@);
                    assert(0 <= j0 < l@.len() && !is_resolved_data(l@[j0]@));
                    assert(self@->List_0[j0] == l@[j0]@);
                    assert(!is_resolved_data(self@));
                }
                let ghost fuel = budget as nat;
                let mut rest = l;
                let mut out: Vec<TaskInput> = Vec::new();
                proof {
                    assert(Seq::new(out@.len(), |i: int| out@[i]@) + resolve_list(m, lspec, fuel, 0)->Ok_0
                        =~= resolve_list(m, lspec, fuel, 0)->Ok_0);
                }
                while rest.len() > 0
                    invariant
                        out@.len() + rest@.len() == l@.len(),
                        forall|j: int| 0 <= j < rest@.len()
                            ==> #[trigger] rest@[j] == l@[out@.len() + j],
                        backend.model() == m,
                        (match resolve_list(m, lspec, fuel, out@.len() as int) {
                            Ok(s) => resolve_data(m, self@, fuel) == Ok::<InputData, ResolveError>(
                                InputData::List(Seq::new(out@.len(), |i: int| out@[i]@) + s),
                            ),
                            Err(e) => resolve_data(m, self@, fuel) == Err::<InputData, ResolveError>(e),
                        }),
                    decreases rest@.len(),
                {
                    let ghost k = out@.len() as int;
                    let ghost prefix = Seq::new(out@.len(), |i: int| out@[i]@);
                    let x = rest.remove(0);
                    proof {
                        assert(x == l@[k]);
                        assert(x@ == lspec[k]);
                        assert(decreases_to!(TaskInput::List(l) => l));
                        assert(decreases_to!(self => l));
                        assert(decreases_to!(l => l@[k]));
                    }
                    match x.resolve(backend, budget) {
                        Ok(v) => {
                            out.push(v);
                            proof {
                                assert(resolve_data(m, lspec[k], fuel)
                                    == Ok::<InputData, ResolveError>(v@));
                                assert(Seq::new(out@.len(), |i: int| out@[i]@)
                                    =~= prefix + seq![v@]);
                                match resolve_list(m, lspec, fuel, k + 1) {
                                    Ok(s) => {
                                        assert(resolve_list(m, lspec, fuel, k)
                                            == Ok::<Seq<InputData>, ResolveError>(seq![v@] + s));
                                        assert((prefix + seq![v@]) + s =~= prefix + (seq![v@] + s));
                                    },
                                    Err(e) => {
                                        assert(resolve_list(m, lspec, fuel, k)
                                            == Err::<Seq<InputData>, ResolveError>(e));
                                    },
                                }
                            }
                        },
                        Err(e) => {
                            proof {
                                assert(resolve_data(m, lspec[k], fuel)
                                    == Err::<InputData, ResolveError>(e));
                                assert(resolve_list(m, lspec, fuel, k)
                                    == Err::<Seq<InputData>, ResolveError>(e));
                            }
                            return Err(e);
                        },
                    }
                }
                let r = TaskInput::List(out);
                proof {
                    lemma_list_view(r, out);
                    assert(resolve_list(m, lspec, fuel, out@.len() as int)
                        == Ok::<Seq<InputData>, ResolveError>(Seq::empty()));
                    assert(Seq::new(out@.len(), |i: int| out@[i]@) + Seq::empty()
                        =~= Seq::new(out@.len(), |i: int| out@[i]@));
                    assert(r@->List_0 =~= Seq::new(out@.len(), |i: int| out@[i]@));
                }
                Ok(r)
            },
            other => {
                proof {
                    assert(resolve_data(m, other@, budget as nat)
                        == Ok::<InputData, ResolveError>(other@));
                }
                Ok(other)
            },
        }
    }
}

/// Whether every element of the list is already resolved.
#[verifier::loop_isolation(false)]
fn all_resolved(l: &Vec<TaskInput>) -> (r: bool)
    ensures
        r == forall|i: int| 0 <= i < l@.len() ==> is_resolved_data(#[trigger] l@[i]@),
{
    let mut i: usize = 0;
    while i < l.len()
        invariant
            0 <= i <= l@.len(),
            forall|j: int| 0 <= j < i ==> is_resolved_data(#[trigger] l@[j]@),
        decreases l@.len() - i,
    {
        let resolved = l[i].is_resolved();
        if !resolved {
            return false;
        }
        i += 1;
    }
    true
}

} // verus!

use crate::ids::{TypeKey, ValueTypeId};
use crate::input::{InputData, RawVc, TaskInput};
use crate::opaque::{OpaqueData, OpaqueValue, SharedValue};
use vstd::prelude::*;

verus! {

/// The shape a failed extraction expected to find.
#[derive(Clone, Copy, PartialEq, Eq, Structural, Debug)]
pub enum Kind {
    String,
    Bool,
    Usize,
    I32,
    U32,
    List,
    CellRef,
}

/// A type mismatch during extraction: recoverable, and it names what was
/// expected — a variant shape, or the concrete type behind an opaque
/// value.
#[derive(Clone, Copy, PartialEq, Eq, Structural, Debug)]
pub enum ConvertError {
    /// The input had a different variant than the requested shape.
    Expected(Kind),
    /// The opaque value held a different concrete type than requested.
    ExpectedConcrete(TypeKey),
}

/// Fallible extraction of a native value out of an input: succeeds
/// exactly on the accepted variants, and fails with the descriptive
/// mismatch error otherwise.
pub trait FromInput: Sized {
    /// The inputs this native shape extracts from.
    spec fn accepts(x: InputData) -> bool;

    /// The extracted value, pinned down relative to the input.
    spec fn matches_value(x: InputData, v: Self) -> bool;

    /// The error produced on a rejected input.
    spec fn mismatch(x: InputData) -> ConvertError;

    /// Extracts the native value.
    fn from_input(x: &TaskInput) -> (r: Result<Self, ConvertError>)
        ensures
            Self::accepts(x@) ==> (r matches Ok(v) && Self::matches_value(x@, v)),
            !Self::accepts(x@) ==> r == Err::<Self, ConvertError>(Self::mismatch(x@)),
    ;
}

impl FromInput for String {
    open spec fn accepts(x: InputData) -> bool {
        x is String
    }

    open spec fn matches_value(x: InputData, v: Self) -> bool {
        x->String_0 == v@
    }

    open spec fn mismatch(x: InputData) -> ConvertError {
        ConvertError::Expected(Kind::String)
    }

    fn from_input(x: &TaskInput) -> (r: Result<Self, ConvertError>) {
        match x {
            TaskInput::String(s) => Ok(s.clone()),
            _ => Err(ConvertError::Expected(Kind::String)),
        }
    }
}

impl FromInput for bool {
    open spec fn accepts(x: InputData) -> bool {
        x is Bool
    }

    open spec fn matches_value(x: InputData, v: Self) -> bool {
        x->Bool_0 == v
    }

    open spec fn mismatch(x: InputData) -> ConvertError {
        ConvertError::Expected(Kind::Bool)
    }

    fn from_input(x: &TaskInput) -> (r: Result<Self, ConvertError>) {
        match x {
            TaskInput::Bool(b) => Ok(*b),
            _ => Err(ConvertError::Expected(Kind::Bool)),
        }
    }
}

impl FromInput for usize {
    open spec fn accepts(x: InputData) -> bool {
        x is Usize
    }

    open spec fn matches_value(x: InputData, v: Self) -> bool {
        x->Usize_0 == v
    }

    open spec fn mismatch(x: InputData) -> ConvertError {
        ConvertError::Expected(Kind::Usize)
    }

    fn from_input(x: &TaskInput) -> (r: Result<Self, ConvertError>) {
        match x {
            TaskInput::Usize(v) => Ok(*v),
            _ => Err(ConvertError::Expected(Kind::Usize)),
        }
    }
}

impl FromInput for i32 {
    open spec fn accepts(x: InputData) -> bool {
        x is I32
    }

    open spec fn matches_value(x: InputData, v: Self) -> bool {
        x->I32_0 == v
    }

    open spec fn mismatch(x: InputData) -> ConvertError {
        ConvertError::Expected(Kind::I32)
    }

    fn from_input(x: &TaskInput) -> (r: Result<Self, ConvertError>) {
        match x {
            TaskInput::I32(v) => Ok(*v),
            _ => Err(ConvertError::Expected(Kind::I32)),
        }
    }
}

impl FromInput for u32 {
    open spec fn accepts(x: InputData) -> bool {
        x is U32
    }

    open spec fn matches_value(x: InputData, v: Self) -> bool {
        x->U32_0 == v
    }

    open spec fn mismatch(x: InputData) -> ConvertError {
        ConvertError::Expected(Kind::U32)
    }

    fn from_input(x: &TaskInput) -> (r: Result<Self, ConvertError>) {
        match x {
            TaskInput::U32(v) => Ok(*v),
            _ => Err(ConvertError::Expected(Kind::U32)),
        }
    }
}

impl FromInput for RawVc {
    open spec fn accepts(x: InputData) -> bool {
        x is TaskOutput || x is TaskSlot
    }

    open spec fn matches_value(x: InputData, v: Self) -> bool {
        match x {
            InputData::TaskOutput(t) => v == RawVc::TaskOutput(t),
            InputData::TaskSlot(t, i) => v == RawVc::TaskSlot(t, i),
            _ => false,
        }
    }

    open spec fn mismatch(x: InputData) -> ConvertError {
        ConvertError::Expected(Kind::CellRef)
    }

    fn from_input(x: &TaskInput) -> (r: Result<Self, ConvertError>) {
        match x {
            TaskInput::TaskOutput(t) => Ok(RawVc::TaskOutput(*t)),
            TaskInput::TaskSlot(t, i) => Ok(RawVc::TaskSlot(*t, *i)),
            _ => Err(ConvertError::Expected(Kind::CellRef)),
        }
    }
}

/// The position of the first list element the native shape rejects.
pub open spec fn first_reject<T: FromInput>(l: Seq<InputData>) -> int {
    choose|j: int|
        0 <= j < l.len() && !T::accepts(l[j]) && (forall|k: int|
            0 <= k < j ==> T::accepts(#[trigger] l[k]))
}

impl<T: FromInput> FromInput for Vec<T> {
    open spec fn accepts(x: InputData) -> bool {
        x is List && (forall|i: int| 0 <= i < x->List_0.len() ==> T::accepts(#[trigger] x->List_0[i]))
    }

    open spec fn matches_value(x: InputData, v: Self) -> bool {
        &&& x is List
        &&& v@.len() == x->List_0.len()
        &&& forall|i: int| 0 <= i < v@.len() ==> T::matches_value(x->List_0[i], #[trigger] v@[i])
    }

    open spec fn mismatch(x: InputData) -> ConvertError {
        if x is List {
            T::mismatch(x->List_0[first_reject::<T>(x->List_0)])
        } else {
            ConvertError::Expected(Kind::List)
        }
    }

    #[verifier::loop_isolation(false)]
    fn from_input(x: &TaskInput) -> (r: Result<Self, ConvertError>) {
        match x {
            TaskInput::List(l) => {
                proof {
                    crate::input::lemma_list_view(*x, *l);
                }
                let ghost lspec = x@->List_0;
                let mut out: Vec<T> = Vec::new();
                let mut i: usize = 0;
                while i < l.len()
                    invariant
                        0 <= i <= l@.len(),
                        out@.len() == i,
                        forall|j: int| 0 <= j < i ==> T::accepts(#[trigger] lspec[j]),
                        forall|j: int| 0 <= j < i
                            ==> T::matches_value(lspec[j], #[trigger] out@[j]),
                    decreases l@.len() - i,
                {
                    match T::from_input(&l[i]) {
                        Ok(v) => {
                            out.push(v);
                            i += 1;
                        },
                        Err(e) => {
                            proof {
                                let ghost k = i as int;
                                assert(!T::accepts(lspec[k]));
                                let j = first_reject::<T>(lspec);
                                assert(0 <= k < lspec.len() && !T::accepts(lspec[k])
                                    && (forall|k2: int| 0 <= k2 < k
                                        ==> T::accepts(#[trigger] lspec[k2])));
                                assert(0 <= j < lspec.len() && !T::accepts(lspec[j])
                                    && (forall|k2: int| 0 <= k2 < j
                                        ==> T::accepts(#[trigger] lspec[k2])));
                                if j < k {
                                    assert(T::accepts(lspec[j]));
                                } else if j > k {
                                    assert(T::accepts(lspec[k]));
                                }
                                assert(j == k);
                            }
                            return Err(e);
                        },
                    }
                }
                Ok(out)
            },
            _ => Err(ConvertError::Expected(Kind::List)),
        }
    }
}

/// A typed application value: the registered type tag that the concrete
/// type's statics provide, beside the type-erased value. Converting it
/// into an input yields a tagged value-form wrapper, which participates
/// in memoization-key equality and may be serialized.
#[derive(Debug, PartialEq, Eq)]
pub struct Value {
    pub ty: ValueTypeId,
    pub value: OpaqueValue,
}

/// Mathematical model of a [`Value`].
pub struct ValueTypedData {
    pub ty: ValueTypeId,
    pub value: OpaqueData,
}

impl View for Value {
    type V = ValueTypedData;

    open spec fn view(&self) -> ValueTypedData {
        ValueTypedData { ty: self.ty, value: self.value@ }
    }
}

/// A transient application value: type-erased and deliberately untagged,
/// so it never affects type-based cache identity and can never be
/// persisted.
#[derive(Debug, PartialEq, Eq)]
pub struct TransientValue {
    pub value: OpaqueValue,
}

impl View for TransientValue {
    type V = OpaqueData;

    open spec fn view(&self) -> OpaqueData {
        self.value@
    }
}

impl From<Value> for TaskInput {
    /// A typed value becomes a tagged value-form wrapper.
    fn from(v: Value) -> (r: TaskInput) {
        TaskInput::SharedValue(SharedValue { type_tag: Some(v.ty), value: v.value })
    }
}

impl vstd::std_specs::convert::FromSpecImpl<Value> for TaskInput {
    open spec fn obeys_from_spec() -> bool {
        true
    }

    open spec fn from_spec(v: Value) -> TaskInput {
        TaskInput::SharedValue(SharedValue { type_tag: Some(v.ty), value: v.value })
    }
}

impl From<TransientValue> for TaskInput {
    /// A transient value becomes an untagged value-form wrapper.
    fn from(v: TransientValue) -> (r: TaskInput) {
        TaskInput::SharedValue(SharedValue { type_tag: None, value: v.value })
    }
}

impl vstd::std_specs::convert::FromSpecImpl<TransientValue> for TaskInput {
    open spec fn obeys_from_spec() -> bool {
        true
    }

    open spec fn from_spec(v: TransientValue) -> TaskInput {
        TaskInput::SharedValue(SharedValue { type_tag: None, value: v.value })
    }
}

impl From<String> for TaskInput {
    fn from(s: String) -> (r: TaskInput) {
        TaskInput::String(s)
    }
}

impl vstd::std_specs::convert::FromSpecImpl<String> for TaskInput {
    open spec fn obeys_from_spec() -> bool {
        true
    }

    open spec fn from_spec(s: String) -> TaskInput {
        TaskInput::String(s)
    }
}

impl From<bool> for TaskInput {
    fn from(b: bool) -> (r: TaskInput) {
        TaskInput::Bool(b)
    }
}

impl vstd::std_specs::convert::FromSpecImpl<bool> for TaskInput {
    open spec fn obeys_from_spec() -> bool {
        true
    }

    open spec fn from_spec(b: bool) -> TaskInput {
        TaskInput::Bool(b)
    }
}

impl From<i32> for TaskInput {
    fn from(v: i32) -> (r: TaskInput) {
        TaskInput::I32(v)
    }
}

impl vstd::std_specs::convert::FromSpecImpl<i32> for TaskInput {
    open spec fn obeys_from_spec() -> bool {
        true
    }

    open spec fn from_spec(v: i32) -> TaskInput {
        TaskInput::I32(v)
    }
}

impl From<u32> for TaskInput {
    fn from(v: u32) -> (r: TaskInput) {
        TaskInput::U32(v)
    }
}

impl vstd::std_specs::convert::FromSpecImpl<u32> for TaskInput {
    open spec fn obeys_from_spec() -> bool {
        true
    }

    open spec fn from_spec(v: u32) -> TaskInput {
        TaskInput::U32(v)
    }
}

impl From<usize> for TaskInput {
    fn from(v: usize) -> (r: TaskInput) {
        TaskInput::Usize(v)
    }
}

impl vstd::std_specs::convert::FromSpecImpl<usize> for TaskInput {
    open spec fn obeys_from_spec() -> bool {
        true
    }

    open spec fn from_spec(v: usize) -> TaskInput {
        TaskInput::Usize(v)
    }
}

impl From<Vec<TaskInput>> for TaskInput {
    fn from(l: Vec<TaskInput>) -> (r: TaskInput) {
        TaskInput::List(l)
    }
}

impl vstd::std_specs::convert::FromSpecImpl<Vec<TaskInput>> for TaskInput {
    open spec fn obeys_from_spec() -> bool {
        true
    }

    open spec fn from_spec(l: Vec<TaskInput>) -> TaskInput {
        TaskInput::List(l)
    }
}

impl TaskInput {
    /// Extracts a typed value. `ty` and `key` mirror what the requested
    /// concrete type's statics provide: its registered tag and its
    /// dynamic type key. Succeeds exactly when the input is a value-form
    /// wrapper whose content downcasts to that concrete type; the
    /// wrapper's own tag plays no part, so transient values extract too.
    pub fn extract_value(&self, ty: ValueTypeId, key: TypeKey) -> (r: Result<Value, ConvertError>)
        ensures
            (match self@ {
                InputData::SharedValue(vd) => {
                    if vd.value.type_key == key {
                        r matches Ok(v) && v@ == ValueTypedData { ty, value: vd.value }
                    } else {
                        r == Err::<Value, ConvertError>(ConvertError::ExpectedConcrete(key))
                    }
                },
                _ => r == Err::<Value, ConvertError>(ConvertError::ExpectedConcrete(key)),
            }),
    {
        match self {
            TaskInput::SharedValue(sv) => {
                if sv.value.type_key.key == key.key {
                    Ok(Value { ty, value: sv.value.duplicate() })
                } else {
                    Err(ConvertError::ExpectedConcrete(key))
                }
            },
            _ => Err(ConvertError::ExpectedConcrete(key)),
        }
    }

    /// Extracts a transient value, by the same downcast rule as
    /// [`TaskInput::extract_value`].
    pub fn extract_transient(&self, key: TypeKey) -> (r: Result<TransientValue, ConvertError>)
        ensures
            (match self@ {
                InputData::SharedValue(vd) => {
                    if vd.value.type_key == key {
                        r matches Ok(v) && v@ == vd.value
                    } else {
                        r == Err::<TransientValue, ConvertError>(ConvertError::ExpectedConcrete(key))
                    }
                },
                _ => r == Err::<TransientValue, ConvertError>(ConvertError::ExpectedConcrete(key)),
            }),
    {
        match self {
            TaskInput::SharedValue(sv) => {
                if sv.value.type_key.key == key.key {
                    Ok(TransientValue { value: sv.value.duplicate() })
                } else {
                    Err(ConvertError::ExpectedConcrete(key))
                }
            },
            _ => Err(ConvertError::ExpectedConcrete(key)),
        }
    }
}

} // verus!

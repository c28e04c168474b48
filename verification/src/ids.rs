use vstd::prelude::*;

verus! {

/// Identifier of a task instance. Assigned and owned by the external
/// scheduler; this crate only stores and compares it.
#[derive(Clone, Copy, PartialEq, Eq, Structural, Debug, Hash)]
pub struct TaskId {
    pub id: u32,
}

/// Process-local key of a registered value type in the [`crate::Registry`].
#[derive(Clone, Copy, PartialEq, Eq, Structural, Debug, Hash)]
pub struct ValueTypeId {
    pub id: u32,
}

/// Key of a registered trait in the [`crate::Registry`].
#[derive(Clone, Copy, PartialEq, Eq, Structural, Debug, Hash)]
pub struct TraitTypeId {
    pub id: u32,
}

/// Identifier of a task function, used for dynamic trait-method dispatch.
#[derive(Clone, Copy, PartialEq, Eq, Structural, Debug, Hash)]
pub struct FunctionId {
    pub id: u32,
}

/// Dynamic identity of a concrete application type, standing for the
/// language-level type identifier of the value behind an opaque wrapper.
/// A downcast succeeds exactly when the keys agree.
#[derive(Clone, Copy, PartialEq, Eq, Structural, Debug, Hash)]
pub struct TypeKey {
    pub key: u64,
}

} // verus!

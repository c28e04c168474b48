use crate::ids::{TypeKey, ValueTypeId};
use vstd::prelude::*;
use vstd::std_specs::cmp::PartialEqSpec;

verus! {

/// A type-erased application value: the dynamic identity of its concrete
/// type together with its content in the type's canonical byte encoding.
/// This pair is exactly what the engine can observe of an opaque value:
/// a downcast checks the key, content equality compares the bytes.
#[derive(Debug, PartialEq, Eq)]
pub struct OpaqueValue {
    pub type_key: TypeKey,
    pub bytes: Vec<u8>,
}

/// Mathematical model of an [`OpaqueValue`].
pub struct OpaqueData {
    pub type_key: TypeKey,
    pub bytes: Seq<u8>,
}

impl View for OpaqueValue {
    type V = OpaqueData;

    open spec fn view(&self) -> OpaqueData {
        OpaqueData { type_key: self.type_key, bytes: self.bytes@ }
    }
}

impl OpaqueValue {
    /// Attempts to recover the concrete type: hands the content back
    /// exactly when the caller's expected type key is the one the value
    /// was erased from.
    pub fn downcast(self, expected: TypeKey) -> (r: Option<OpaqueValue>)
        ensures
            self.type_key == expected ==> r == Some(self),
            self.type_key != expected ==> r is None,
    {
        if self.type_key.key == expected.key {
            Some(self)
        } else {
            None
        }
    }

    /// Content equality: same concrete type and same encoded bytes.
    pub fn content_eq(&self, other: &OpaqueValue) -> (r: bool)
        ensures
            r == (self@ == other@),
    {
        if self.type_key.key != other.type_key.key {
            return false;
        }
        if self.bytes.len() != other.bytes.len() {
            return false;
        }
        let mut i: usize = 0;
        while i < self.bytes.len()
            invariant
                0 <= i <= self.bytes@.len(),
                self.bytes@.len() == other.bytes@.len(),
                forall|j: int| 0 <= j < i ==> self.bytes@[j] == other.bytes@[j],
            decreases self.bytes@.len() - i,
        {
            if self.bytes[i] != other.bytes[i] {
                return false;
            }
            i += 1;
        }
        assert(self.bytes@ =~= other.bytes@);
        true
    }

    /// Copies the value; the copy carries the same key and bytes.
    pub fn duplicate(&self) -> (r: OpaqueValue)
        ensures
            r@ == self@,
    {
        let mut bytes: Vec<u8> = Vec::new();
        let mut i: usize = 0;
        while i < self.bytes.len()
            invariant
                0 <= i <= self.bytes@.len(),
                bytes@ =~= self.bytes@.subrange(0, i as int),
            decreases self.bytes@.len() - i,
        {
            bytes.push(self.bytes[i]);
            i += 1;
        }
        assert(bytes@ =~= self.bytes@);
        OpaqueValue { type_key: self.type_key, bytes }
    }
}

/// Reference-form opaque wrapper: an optional type tag beside a shared
/// handle to an already-computed value held by the backend store. The
/// `addr` field is the identity of the shared allocation; equality,
/// ordering and hashing go by that identity alone, never by content —
/// backend-stored values are already deduplicated by the backend, so
/// identity is a correct O(1) substitute for deep comparison.
#[derive(Debug)]
pub struct SharedReference {
    pub type_tag: Option<ValueTypeId>,
    pub addr: u64,
    pub value: OpaqueValue,
}

/// Mathematical model of a [`SharedReference`].
pub struct ReferenceData {
    pub type_tag: Option<ValueTypeId>,
    pub addr: u64,
    pub value: OpaqueData,
}

impl View for SharedReference {
    type V = ReferenceData;

    open spec fn view(&self) -> ReferenceData {
        ReferenceData { type_tag: self.type_tag, addr: self.addr, value: self.value@ }
    }
}

impl SharedReference {
    /// Attempts to recover the concrete type of the shared value.
    pub fn downcast(self, expected: TypeKey) -> (r: Option<OpaqueValue>)
        ensures
            self.value.type_key == expected ==> r == Some(self.value),
            self.value.type_key != expected ==> r is None,
    {
        self.value.downcast(expected)
    }
}

impl SharedReference {
    /// Copies the wrapper. The copy shares the allocation, so it carries
    /// the same identity, tag and content.
    pub fn duplicate(&self) -> (r: SharedReference)
        ensures
            r@ == self@,
    {
        SharedReference { type_tag: self.type_tag, addr: self.addr, value: self.value.duplicate() }
    }
}

impl PartialEq for SharedReference {
    /// Wrapper identity: two references are equal exactly when they share
    /// one allocation, whatever their contents.
    fn eq(&self, other: &SharedReference) -> (r: bool) {
        self.addr == other.addr
    }
}

impl vstd::std_specs::cmp::PartialEqSpecImpl for SharedReference {
    open spec fn obeys_eq_spec() -> bool {
        true
    }

    open spec fn eq_spec(&self, other: &SharedReference) -> bool {
        self.addr == other.addr
    }
}

impl Eq for SharedReference {}

impl PartialOrd for SharedReference {
    /// Wrapper identity orders references too: by the allocation's
    /// address, never by content.
    fn partial_cmp(&self, other: &SharedReference) -> (r: Option<core::cmp::Ordering>) {
        if self.addr < other.addr {
            Some(core::cmp::Ordering::Less)
        } else if self.addr == other.addr {
            Some(core::cmp::Ordering::Equal)
        } else {
            Some(core::cmp::Ordering::Greater)
        }
    }
}

impl vstd::std_specs::cmp::PartialOrdSpecImpl for SharedReference {
    open spec fn obeys_partial_cmp_spec() -> bool {
        true
    }

    open spec fn partial_cmp_spec(&self, other: &SharedReference) -> Option<core::cmp::Ordering> {
        if self.addr < other.addr {
            Some(core::cmp::Ordering::Less)
        } else if self.addr == other.addr {
            Some(core::cmp::Ordering::Equal)
        } else {
            Some(core::cmp::Ordering::Greater)
        }
    }
}

/// Value-form opaque wrapper: an optional type tag beside a shared handle
/// to a value whose content can be compared. Used for values constructed
/// directly by application code; equality is structural, so two
/// independently constructed wrappers with equal tag and equal content
/// compare equal — this is what lets the engine deduplicate task calls
/// with semantically equal arguments.
#[derive(Debug)]
pub struct SharedValue {
    pub type_tag: Option<ValueTypeId>,
    pub value: OpaqueValue,
}

/// Mathematical model of a [`SharedValue`].
pub struct ValueData {
    pub type_tag: Option<ValueTypeId>,
    pub value: OpaqueData,
}

impl View for SharedValue {
    type V = ValueData;

    open spec fn view(&self) -> ValueData {
        ValueData { type_tag: self.type_tag, value: self.value@ }
    }
}

impl SharedValue {
    /// Attempts to recover the concrete type of the shared value.
    pub fn downcast(self, expected: TypeKey) -> (r: Option<OpaqueValue>)
        ensures
            self.value.type_key == expected ==> r == Some(self.value),
            self.value.type_key != expected ==> r is None,
    {
        self.value.downcast(expected)
    }
}

impl SharedValue {
    /// Copies the wrapper; the copy has equal tag and content.
    pub fn duplicate(&self) -> (r: SharedValue)
        ensures
            r@ == self@,
    {
        SharedValue { type_tag: self.type_tag, value: self.value.duplicate() }
    }
}

impl PartialEq for SharedValue {
    /// Content equality: same tag and equal content.
    fn eq(&self, other: &SharedValue) -> (r: bool) {
        let tags_equal = match (self.type_tag, other.type_tag) {
            (None, None) => true,
            (Some(a), Some(b)) => a.id == b.id,
            _ => false,
        };
        tags_equal && self.value.content_eq(&other.value)
    }
}

impl vstd::std_specs::cmp::PartialEqSpecImpl for SharedValue {
    open spec fn obeys_eq_spec() -> bool {
        true
    }

    open spec fn eq_spec(&self, other: &SharedValue) -> bool {
        self@ == other@
    }
}

impl Eq for SharedValue {}

/// Identity versus content equality, stated once for all wrappers: two
/// reference-form wrappers are equal exactly when they are one allocation,
/// regardless of content; two value-form wrappers are equal exactly when
/// tag and content agree, regardless of where each was constructed.
pub proof fn lemma_equality_semantics(
    a: SharedReference,
    b: SharedReference,
    v: SharedValue,
    w: SharedValue,
)
    ensures
        a.eq_spec(&b) == (a.addr == b.addr),
        v.eq_spec(&w) == (v@ == w@),
        a@.value == b@.value && a@.type_tag == b@.type_tag && a.addr != b.addr
            ==> !a.eq_spec(&b),
{
}

} // verus!

use crate::ids::{FunctionId, TraitTypeId, TypeKey, ValueTypeId};
use crate::input::{InputData, TaskInput};
use vstd::prelude::*;

verus! {

/// A trait known to the registry, identified by a [`TraitTypeId`].
#[derive(Debug)]
pub struct TraitType {
    pub name: String,
}

/// Mathematical model of a [`TraitType`].
pub struct TraitTypeData {
    pub name: Seq<char>,
}

impl View for TraitType {
    type V = TraitTypeData;

    open spec fn view(&self) -> TraitTypeData {
        TraitTypeData { name: self.name@ }
    }
}

/// The registry's descriptor of one registered value type: its diagnostic
/// name, the stable global name used for serialization, the dynamic key of
/// the concrete type it stands for, the traits that type implements with
/// their dispatchable methods, and whether the type registered the
/// serialization capabilities.
#[derive(Debug)]
pub struct ValueType {
    pub name: String,
    pub global_name: String,
    pub type_key: TypeKey,
    pub traits: Vec<TraitTypeId>,
    pub trait_methods: Vec<(TraitTypeId, String, FunctionId)>,
    pub serializable: bool,
    pub deserializable: bool,
}

/// Mathematical model of a [`ValueType`].
pub struct ValueTypeData {
    pub name: Seq<char>,
    pub global_name: Seq<char>,
    pub type_key: TypeKey,
    pub traits: Seq<TraitTypeId>,
    pub trait_methods: Seq<(TraitTypeId, Seq<char>, FunctionId)>,
    pub serializable: bool,
    pub deserializable: bool,
}

impl View for ValueType {
    type V = ValueTypeData;

    open spec fn view(&self) -> ValueTypeData {
        ValueTypeData {
            name: self.name@,
            global_name: self.global_name@,
            type_key: self.type_key,
            traits: self.traits@,
            trait_methods: Seq::new(
                self.trait_methods@.len(),
                |i: int| if 0 <= i < self.trait_methods@.len() {
                    (self.trait_methods@[i].0, self.trait_methods@[i].1@, self.trait_methods@[i].2)
                } else {
                    (TraitTypeId { id: 0 }, Seq::<char>::empty(), FunctionId { id: 0 })
                },
            ),
            serializable: self.serializable,
            deserializable: self.deserializable,
        }
    }
}

/// Process-wide table of registered value types and traits. Built once at
/// startup, append-only, read-only thereafter.
#[derive(Debug)]
pub struct Registry {
    pub types: Vec<ValueType>,
    pub trait_types: Vec<TraitType>,
}

/// Mathematical model of a [`Registry`].
pub struct RegistryData {
    pub types: Seq<ValueTypeData>,
    pub trait_types: Seq<TraitTypeData>,
}

impl View for Registry {
    type V = RegistryData;

    open spec fn view(&self) -> RegistryData {
        RegistryData {
            types: Seq::new(
                self.types@.len(),
                |i: int| if 0 <= i < self.types@.len() { self.types@[i]@ } else { self.types@[0]@ },
            ),
            trait_types: Seq::new(
                self.trait_types@.len(),
                |i: int| if 0 <= i < self.trait_types@.len() { self.trait_types@[i]@ } else {
                    TraitTypeData { name: Seq::<char>::empty() }
                },
            ),
        }
    }
}

/// A value-type id denotes an entry of the registry's table.
pub open spec fn tag_valid(rd: RegistryData, ty: ValueTypeId) -> bool {
    ty.id < rd.types.len()
}

/// First registered type whose stable global name is `name`, scanning from
/// position `i`.
pub open spec fn lookup_name_from(types: Seq<ValueTypeData>, name: Seq<char>, i: int) -> Option<
    ValueTypeId,
>
    decreases types.len() - i,
{
    if i < 0 || i >= types.len() {
        None
    } else if types[i].global_name == name {
        Some(ValueTypeId { id: i as u32 })
    } else {
        lookup_name_from(types, name, i + 1)
    }
}

/// Resolves a stable global name to the id of the first type registered
/// under it.
pub open spec fn lookup_name(rd: RegistryData, name: Seq<char>) -> Option<ValueTypeId> {
    lookup_name_from(rd.types, name, 0)
}

impl Registry {
    /// Well-formed registry: few enough entries for 32-bit ids, and the
    /// stable global names are unambiguous — each registered type is found
    /// again under its own global name.
    pub open spec fn wf(&self) -> bool {
        &&& self@.types.len() <= u32::MAX
        &&& forall|t: int| 0 <= t < self@.types.len()
            ==> lookup_name(self@, (#[trigger] self@.types[t]).global_name)
                == Some(ValueTypeId { id: t as u32 })
    }

    /// An empty registry, trivially well-formed.
    pub fn new() -> (r: Registry)
        ensures
            r.wf(),
            r@.types.len() == 0,
            r@.trait_types.len() == 0,
    {
        Registry { types: Vec::new(), trait_types: Vec::new() }
    }

    /// Looks up a stable global name; used exclusively by deserialization.
    pub fn get_value_type_id_by_global_name(&self, name: &String) -> (r: Option<ValueTypeId>)
        ensures
            r == lookup_name(self@, name@),
    {
        let mut i: usize = 0;
        while i < self.types.len()
            invariant
                0 <= i <= self.types@.len(),
                lookup_name(self@, name@) == lookup_name_from(self@.types, name@, i as int),
            decreases self.types@.len() - i,
        {
            if self.types[i].global_name == *name {
                return Some(ValueTypeId { id: i as u32 });
            }
            i += 1;
        }
        None
    }

    /// The descriptor registered under a valid value-type id.
    pub fn get_value_type(&self, ty: ValueTypeId) -> (r: &ValueType)
        requires
            tag_valid(self@, ty),
        ensures
            r@ == self@.types[ty.id as int],
    {
        &self.types[ty.id as usize]
    }

    /// The stable global name registered for a valid value-type id; used
    /// exclusively by serialization.
    pub fn get_value_type_global_name(&self, ty: ValueTypeId) -> (r: &String)
        requires
            tag_valid(self@, ty),
        ensures
            r@ == self@.types[ty.id as int].global_name,
    {
        &self.types[ty.id as usize].global_name
    }

    /// The trait registered under a valid trait-type id.
    pub fn get_trait(&self, t: TraitTypeId) -> (r: &TraitType)
        requires
            t.id < self@.trait_types.len(),
        ensures
            r@ == self@.trait_types[t.id as int],
    {
        &self.trait_types[t.id as usize]
    }

    /// Registers a trait, handing back its id.
    pub fn register_trait_type(&mut self, t: TraitType) -> (r: Option<TraitTypeId>)
        requires
            old(self).wf(),
        ensures
            final(self).wf(),
            final(self)@.types == old(self)@.types,
            old(self)@.trait_types.len() < u32::MAX ==> (
                r == Some(TraitTypeId { id: old(self)@.trait_types.len() as u32 })
                && final(self)@.trait_types == old(self)@.trait_types.push(t@)
            ),
            old(self)@.trait_types.len() >= u32::MAX ==> r is None && final(self)@ == old(self)@,
    {
        if self.trait_types.len() >= u32::MAX as usize {
            return None;
        }
        let id: u32 = self.trait_types.len() as u32;
        self.trait_types.push(t);
        proof {
            assert(self@.trait_types =~= old(self)@.trait_types.push(t@));
            assert(self@.types =~= old(self)@.types);
            lemma_lookup_same(old(self)@.types, self@.types);
        }
        Some(TraitTypeId { id })
    }

    /// Registers a value type. Fails (leaving the registry unchanged) when
    /// the global name is already taken or the table is full; otherwise
    /// appends the descriptor and hands back its fresh id.
    pub fn register_value_type(&mut self, vt: ValueType) -> (r: Option<ValueTypeId>)
        requires
            old(self).wf(),
        ensures
            final(self).wf(),
            final(self)@.trait_types == old(self)@.trait_types,
            r is Some ==> (
                lookup_name(old(self)@, vt@.global_name) is None
                && old(self)@.types.len() < u32::MAX
                && r == Some(ValueTypeId { id: old(self)@.types.len() as u32 })
                && final(self)@.types == old(self)@.types.push(vt@)
            ),
            r is None ==> final(self)@ == old(self)@
                && (lookup_name(old(self)@, vt@.global_name) is Some
                    || old(self)@.types.len() >= u32::MAX),
    {
        if self.types.len() >= u32::MAX as usize {
            return None;
        }
        let taken = self.get_value_type_id_by_global_name(&vt.global_name);
        if taken.is_some() {
            return None;
        }
        let id: u32 = self.types.len() as u32;
        self.types.push(vt);
        proof {
            assert(self@.types =~= old(self)@.types.push(vt@));
            assert(self@.trait_types =~= old(self)@.trait_types);
            lemma_lookup_push(old(self)@.types, vt@);
            assert forall|t: int| 0 <= t < self@.types.len()
                implies lookup_name(self@, (#[trigger] self@.types[t]).global_name)
                    == Some(ValueTypeId { id: t as u32 }) by {
                if t < old(self)@.types.len() {
                    assert(self@.types[t] == old(self)@.types[t]);
                    assert(lookup_name_from(old(self)@.types, old(self)@.types[t].global_name, 0)
                        == Some(ValueTypeId { id: t as u32 }));
                } else {
                    assert(self@.types[t] == vt@);
                }
            }
        }
        Some(ValueTypeId { id })
    }
}

/// Appending a type leaves every earlier name lookup that succeeded
/// unchanged, and resolves the new type's name to the new id when no
/// earlier type claimed it.
proof fn lemma_lookup_push_from(types: Seq<ValueTypeData>, vt: ValueTypeData, name: Seq<char>, i: int)
    requires
        0 <= i <= types.len(),
    ensures
        lookup_name_from(types, name, i) is Some
            ==> lookup_name_from(types.push(vt), name, i) == lookup_name_from(types, name, i),
        lookup_name_from(types, name, i) is None && vt.global_name == name
            ==> lookup_name_from(types.push(vt), name, i)
                == Some(ValueTypeId { id: types.len() as u32 }),
        lookup_name_from(types, name, i) is None && vt.global_name != name
            ==> lookup_name_from(types.push(vt), name, i) is None,
    decreases types.len() - i,
{
    if i < types.len() {
        assert(types.push(vt)[i] == types[i]);
        lemma_lookup_push_from(types, vt, name, i + 1);
    } else {
        assert(types.push(vt)[i] == vt);
        assert(lookup_name_from(types, name, i) is None);
        assert(lookup_name_from(types.push(vt), name, i + 1) is None);
    }
}

/// [`lemma_lookup_push_from`] for full scans of every name.
proof fn lemma_lookup_push(types: Seq<ValueTypeData>, vt: ValueTypeData)
    ensures
        forall|name: Seq<char>| #[trigger] lookup_name_from(types, name, 0) is Some
            ==> lookup_name_from(types.push(vt), name, 0) == lookup_name_from(types, name, 0),
        forall|name: Seq<char>| lookup_name_from(types, name, 0) is None && vt.global_name == name
            ==> #[trigger] lookup_name_from(types.push(vt), name, 0)
                == Some(ValueTypeId { id: types.len() as u32 }),
{
    assert forall|name: Seq<char>| #[trigger] lookup_name_from(types, name, 0) is Some
        implies lookup_name_from(types.push(vt), name, 0) == lookup_name_from(types, name, 0) by {
        lemma_lookup_push_from(types, vt, name, 0);
    }
    assert forall|name: Seq<char>| lookup_name_from(types, name, 0) is None
        && vt.global_name == name
        implies #[trigger] lookup_name_from(types.push(vt), name, 0)
            == Some(ValueTypeId { id: types.len() as u32 }) by {
        lemma_lookup_push_from(types, vt, name, 0);
    }
}

/// Two equal tables resolve every name alike.
proof fn lemma_lookup_same(a: Seq<ValueTypeData>, b: Seq<ValueTypeData>)
    requires
        a == b,
    ensures
        forall|name: Seq<char>| #[trigger] lookup_name_from(a, name, 0)
            == lookup_name_from(b, name, 0),
{
}

/// The type tag the trait queries consult: absent for non-opaque variants,
/// otherwise the wrapper's optional tag.
pub open spec fn opaque_tag(x: InputData) -> Option<Option<ValueTypeId>> {
    match x {
        InputData::SharedValue(v) => Some(v.type_tag),
        InputData::SharedReference(r) => Some(r.type_tag),
        _ => None,
    }
}

/// Any tag carried by an opaque variant denotes an entry of the registry.
pub open spec fn input_tag_valid(x: InputData, rd: RegistryData) -> bool {
    match opaque_tag(x) {
        Some(Some(ty)) => tag_valid(rd, ty),
        _ => true,
    }
}

/// First dispatchable method registered for the trait under the name,
/// scanning the descriptor's method table from position `i`.
pub open spec fn lookup_method_from(
    methods: Seq<(TraitTypeId, Seq<char>, FunctionId)>,
    trait_type: TraitTypeId,
    name: Seq<char>,
    i: int,
) -> Option<FunctionId>
    decreases methods.len() - i,
{
    if i < 0 || i >= methods.len() {
        None
    } else if methods[i].0 == trait_type && methods[i].1 == name {
        Some(methods[i].2)
    } else {
        lookup_method_from(methods, trait_type, name, i + 1)
    }
}

/// The function registered for `(trait_type, name)` in the descriptor.
pub open spec fn lookup_method(
    vt: ValueTypeData,
    trait_type: TraitTypeId,
    name: Seq<char>,
) -> Option<FunctionId> {
    lookup_method_from(vt.trait_methods, trait_type, name, 0)
}

/// Whether the descriptor lists the trait as implemented.
pub open spec fn lists_trait(vt: ValueTypeData, trait_type: TraitTypeId) -> bool {
    exists|i: int| 0 <= i < vt.traits.len() && vt.traits[i] == trait_type
}

impl TaskInput {
    /// The wrapper tag of an opaque variant, absent for every other
    /// variant.
    fn opaque_wrapper_tag(&self) -> (r: Option<Option<ValueTypeId>>)
        ensures
            r == opaque_tag(self@),
    {
        match self {
            TaskInput::SharedValue(v) => Some(v.type_tag),
            TaskInput::SharedReference(data) => Some(data.type_tag),
            _ => None,
        }
    }

    /// Looks up the dynamically dispatched function for a trait method on
    /// an opaque value's registered type. Must be called on a resolved
    /// input: calling it on an indirection is a contract violation by the
    /// surrounding engine, not recoverable bad data.
    pub fn get_trait_method(&self, reg: &Registry, trait_type: TraitTypeId, name: &String) -> (r:
        Option<FunctionId>)
        requires
            !(self@ is TaskOutput),
            !(self@ is TaskSlot),
            input_tag_valid(self@, reg@),
        ensures
            r == (match opaque_tag(self@) {
                Some(Some(ty)) => lookup_method(reg@.types[ty.id as int], trait_type, name@),
                _ => None::<FunctionId>,
            }),
    {
        match self.opaque_wrapper_tag() {
            Some(Some(ty)) => {
                let vt = reg.get_value_type(ty);
                let mut i: usize = 0;
                while i < vt.trait_methods.len()
                    invariant
                        0 <= i <= vt.trait_methods@.len(),
                        opaque_tag(self@) == Some(Some(ty)),
                        ty.id < reg@.types.len(),
                        vt@ == reg@.types[ty.id as int],
                        lookup_method(vt@, trait_type, name@)
                            == lookup_method_from(vt@.trait_methods, trait_type, name@, i as int),
                    decreases vt.trait_methods@.len() - i,
                {
                    let entry = &vt.trait_methods[i];
                    if entry.0.id == trait_type.id && entry.1 == *name {
                        proof {
                            assert(vt@.trait_methods[i as int] == (entry.0, entry.1@, entry.2));
                            assert(entry.0 == trait_type && entry.1@ == name@);
                            assert(lookup_method_from(vt@.trait_methods, trait_type, name@, i as int)
                                == Some(entry.2));
                        }
                        return Some(entry.2);
                    }
                    i += 1;
                }
                None
            },
            _ => None,
        }
    }

    /// Whether the opaque value's registered type implements the trait.
    /// Same resolution precondition as [`TaskInput::get_trait_method`];
    /// non-opaque variants simply do not implement it.
    pub fn has_trait(&self, reg: &Registry, trait_type: TraitTypeId) -> (r: bool)
        requires
            !(self@ is TaskOutput),
            !(self@ is TaskSlot),
            input_tag_valid(self@, reg@),
        ensures
            r == (match opaque_tag(self@) {
                Some(Some(ty)) => lists_trait(reg@.types[ty.id as int], trait_type),
                _ => false,
            }),
    {
        match self.opaque_wrapper_tag() {
            Some(Some(ty)) => {
                let vt = reg.get_value_type(ty);
                let mut i: usize = 0;
                while i < vt.traits.len()
                    invariant
                        0 <= i <= vt.traits@.len(),
                        opaque_tag(self@) == Some(Some(ty)),
                        ty.id < reg@.types.len(),
                        vt@ == reg@.types[ty.id as int],
                        forall|j: int| 0 <= j < i ==> vt.traits@[j] != trait_type,
                    decreases vt.traits@.len() - i,
                {
                    if vt.traits[i].id == trait_type.id {
                        proof {
                            assert(vt@.traits[i as int] == trait_type);
                            assert(lists_trait(vt@, trait_type));
                        }
                        return true;
                    }
                    i += 1;
                }
                false
            },
            _ => false,
        }
    }

    /// The trait ids the opaque value's registered type implements. Same
    /// resolution precondition as [`TaskInput::get_trait_method`];
    /// non-opaque variants implement none.
    pub fn traits(&self, reg: &Registry) -> (r: Vec<TraitTypeId>)
        requires
            !(self@ is TaskOutput),
            !(self@ is TaskSlot),
            input_tag_valid(self@, reg@),
        ensures
            r@ == (match opaque_tag(self@) {
                Some(Some(ty)) => reg@.types[ty.id as int].traits,
                _ => Seq::<TraitTypeId>::empty(),
            }),
    {
        match self.opaque_wrapper_tag() {
            Some(Some(ty)) => {
                let vt = reg.get_value_type(ty);
                let mut out: Vec<TraitTypeId> = Vec::new();
                let mut i: usize = 0;
                while i < vt.traits.len()
                    invariant
                        0 <= i <= vt.traits@.len(),
                        out@ =~= vt.traits@.subrange(0, i as int),
                    decreases vt.traits@.len() - i,
                {
                    out.push(vt.traits[i]);
                    i += 1;
                }
                proof {
                    assert(out@ =~= vt.traits@);
                }
                out
            },
            _ => Vec::new(),
        }
    }
}

} // verus!

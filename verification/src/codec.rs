use crate::ids::ValueTypeId;
use crate::opaque::{OpaqueData, OpaqueValue, SharedReference, SharedValue, ValueData};
use crate::registry::{lookup_name, lookup_name_from, tag_valid, Registry, RegistryData};
use vstd::prelude::*;

verus! {

/// The wire shape of an opaque value: the registered type's stable global
/// name beside the capability-encoded payload, a two-element pair. This
/// is the only persisted or transmitted shape this crate defines, and it
/// decouples on-disk identifiers from process-local numeric tags.
#[derive(Debug, PartialEq, Eq)]
pub struct SerializedOpaque {
    pub global_name: String,
    pub payload: Vec<u8>,
}

/// Mathematical model of a [`SerializedOpaque`].
pub struct SerializedData {
    pub global_name: Seq<char>,
    pub payload: Seq<u8>,
}

impl View for SerializedOpaque {
    type V = SerializedData;

    open spec fn view(&self) -> SerializedData {
        SerializedData { global_name: self.global_name@, payload: self.payload@ }
    }
}

/// Failure to serialize an opaque wrapper.
#[derive(Clone, Copy, PartialEq, Eq, Structural, Debug)]
pub enum SerializeError {
    /// The wrapper carries no type tag: transient values are deliberately
    /// excluded from persistence.
    Untyped,
    /// The tagged type registered no serialization capability.
    NotSerializable(ValueTypeId),
}

/// Failure to deserialize a wire pair.
#[derive(Debug, PartialEq, Eq)]
pub enum DeserializeError {
    /// The global name is not registered: an unknown variant.
    UnknownTypeName(String),
    /// The named type registered no deserialization capability.
    NotDeserializable(ValueTypeId),
}

/// Mathematical model of a [`DeserializeError`].
pub enum DeserializeErrorData {
    UnknownTypeName(Seq<char>),
    NotDeserializable(ValueTypeId),
}

impl View for DeserializeError {
    type V = DeserializeErrorData;

    open spec fn view(&self) -> DeserializeErrorData {
        match self {
            DeserializeError::UnknownTypeName(n) => DeserializeErrorData::UnknownTypeName(n@),
            DeserializeError::NotDeserializable(ty) => DeserializeErrorData::NotDeserializable(*ty),
        }
    }
}

/// What serializing an opaque wrapper yields: untagged wrappers never
/// serialize; a tagged one serializes exactly when its type registered
/// the capability, to the pair of the type's stable name and the
/// wrapper's payload.
pub open spec fn serialize_opaque_data(
    rd: RegistryData,
    tag: Option<ValueTypeId>,
    value: OpaqueData,
) -> Result<SerializedData, SerializeError> {
    match tag {
        None => Err(SerializeError::Untyped),
        Some(ty) => {
            if rd.types[ty.id as int].serializable {
                Ok(
                    SerializedData {
                        global_name: rd.types[ty.id as int].global_name,
                        payload: value.bytes,
                    },
                )
            } else {
                Err(SerializeError::NotSerializable(ty))
            }
        },
    }
}

/// What deserializing a wire pair yields: the name is resolved through
/// the registry first; an unknown name or a type without the capability
/// fails; otherwise a fresh wrapper of the named type carrying the
/// payload.
pub open spec fn deserialize_opaque_data(rd: RegistryData, w: SerializedData) -> Result<
    ValueData,
    DeserializeErrorData,
> {
    match lookup_name(rd, w.global_name) {
        None => Err(DeserializeErrorData::UnknownTypeName(w.global_name)),
        Some(ty) => {
            if rd.types[ty.id as int].deserializable {
                Ok(
                    ValueData {
                        type_tag: Some(ty),
                        value: OpaqueData {
                            type_key: rd.types[ty.id as int].type_key,
                            bytes: w.payload,
                        },
                    },
                )
            } else {
                Err(DeserializeErrorData::NotDeserializable(ty))
            }
        },
    }
}

/// A successful name lookup always denotes an entry of the table.
pub proof fn lemma_lookup_name_valid(rd: RegistryData, name: Seq<char>)
    ensures
        lookup_name(rd, name) matches Some(ty) ==> tag_valid(rd, ty),
{
    lemma_lookup_from_valid(rd, name, 0);
}

proof fn lemma_lookup_from_valid(rd: RegistryData, name: Seq<char>, i: int)
    requires
        i >= 0,
    ensures
        lookup_name_from(rd.types, name, i) matches Some(ty) ==> tag_valid(rd, ty),
    decreases rd.types.len() - i,
{
    if i < rd.types.len() {
        lemma_lookup_from_valid(rd, name, i + 1);
    }
}

/// Copies a byte vector.
fn copy_bytes(v: &Vec<u8>) -> (r: Vec<u8>)
    ensures
        r@ == v@,
{
    let mut out: Vec<u8> = Vec::new();
    let mut i: usize = 0;
    while i < v.len()
        invariant
            0 <= i <= v@.len(),
            out@ =~= v@.subrange(0, i as int),
        decreases v@.len() - i,
    {
        out.push(v[i]);
        i += 1;
    }
    proof {
        assert(out@ =~= v@);
    }
    out
}

/// Serializes a tag/payload pair against the registry's capabilities.
fn serialize_opaque(reg: &Registry, tag: Option<ValueTypeId>, value: &OpaqueValue) -> (r: Result<
    SerializedOpaque,
    SerializeError,
>)
    requires
        (tag matches Some(ty) ==> tag_valid(reg@, ty)),
    ensures
        (match r {
            Ok(w) => serialize_opaque_data(reg@, tag, value@) == Ok::<
                SerializedData,
                SerializeError,
            >(w@),
            Err(e) => serialize_opaque_data(reg@, tag, value@) == Err::<
                SerializedData,
                SerializeError,
            >(e),
        }),
{
    match tag {
        None => Err(SerializeError::Untyped),
        Some(ty) => {
            let vt = reg.get_value_type(ty);
            if vt.serializable {
                Ok(
                    SerializedOpaque {
                        global_name: vt.global_name.clone(),
                        payload: copy_bytes(&value.bytes),
                    },
                )
            } else {
                Err(SerializeError::NotSerializable(ty))
            }
        },
    }
}

/// Deserializes a wire pair into a tag and payload via the registry.
fn deserialize_opaque(reg: &Registry, wire: &SerializedOpaque) -> (r: Result<
    SharedValue,
    DeserializeError,
>)
    ensures
        (match r {
            Ok(v) => deserialize_opaque_data(reg@, wire@) == Ok::<
                ValueData,
                DeserializeErrorData,
            >(v@),
            Err(e) => deserialize_opaque_data(reg@, wire@) == Err::<
                ValueData,
                DeserializeErrorData,
            >(e@),
        }),
{
    match reg.get_value_type_id_by_global_name(&wire.global_name) {
        None => Err(DeserializeError::UnknownTypeName(wire.global_name.clone())),
        Some(ty) => {
            proof {
                lemma_lookup_name_valid(reg@, wire.global_name@);
            }
            let vt = reg.get_value_type(ty);
            if vt.deserializable {
                Ok(
                    SharedValue {
                        type_tag: Some(ty),
                        value: OpaqueValue {
                            type_key: vt.type_key,
                            bytes: copy_bytes(&wire.payload),
                        },
                    },
                )
            } else {
                Err(DeserializeError::NotDeserializable(ty))
            }
        },
    }
}

impl SharedValue {
    /// Serializes the wrapper: succeeds only when a type tag is present
    /// and the registry reports a serialization capability for it. In
    /// particular, a wrapper with an absent tag fails deterministically,
    /// whatever it holds.
    pub fn serialize(&self, reg: &Registry) -> (r: Result<SerializedOpaque, SerializeError>)
        requires
            (self.type_tag matches Some(ty) ==> tag_valid(reg@, ty)),
        ensures
            (match r {
                Ok(w) => serialize_opaque_data(reg@, self@.type_tag, self@.value) == Ok::<
                    SerializedData,
                    SerializeError,
                >(w@),
                Err(e) => serialize_opaque_data(reg@, self@.type_tag, self@.value) == Err::<
                    SerializedData,
                    SerializeError,
                >(e),
            }),
            self.type_tag is None <==> r == Err::<SerializedOpaque, SerializeError>(
                SerializeError::Untyped,
            ),
    {
        serialize_opaque(reg, self.type_tag, &self.value)
    }

    /// Deserializes a wire pair into a fresh value-form wrapper. The
    /// name is resolved first; an unknown name or a type without the
    /// deserialization capability is a descriptive error.
    pub fn deserialize(reg: &Registry, wire: &SerializedOpaque) -> (r: Result<
        SharedValue,
        DeserializeError,
    >)
        ensures
            (match r {
                Ok(v) => deserialize_opaque_data(reg@, wire@) == Ok::<
                    ValueData,
                    DeserializeErrorData,
                >(v@),
                Err(e) => deserialize_opaque_data(reg@, wire@) == Err::<
                    ValueData,
                    DeserializeErrorData,
                >(e@),
            }),
    {
        deserialize_opaque(reg, wire)
    }
}

impl SharedReference {
    /// Serializes the wrapper, by the same rule as
    /// [`SharedValue::serialize`]: the identity of the allocation is not
    /// part of the wire shape.
    pub fn serialize(&self, reg: &Registry) -> (r: Result<SerializedOpaque, SerializeError>)
        requires
            (self.type_tag matches Some(ty) ==> tag_valid(reg@, ty)),
        ensures
            (match r {
                Ok(w) => serialize_opaque_data(reg@, self@.type_tag, self@.value) == Ok::<
                    SerializedData,
                    SerializeError,
                >(w@),
                Err(e) => serialize_opaque_data(reg@, self@.type_tag, self@.value) == Err::<
                    SerializedData,
                    SerializeError,
                >(e),
            }),
            self.type_tag is None <==> r == Err::<SerializedOpaque, SerializeError>(
                SerializeError::Untyped,
            ),
    {
        serialize_opaque(reg, self.type_tag, &self.value)
    }

    /// Deserializes a wire pair into a fresh reference-form wrapper.
    /// Deserialization always creates a new allocation, so the caller
    /// supplies the identity of that fresh allocation: no identity is
    /// shared with whatever produced the serialized form.
    pub fn deserialize(reg: &Registry, wire: &SerializedOpaque, fresh_addr: u64) -> (r: Result<
        SharedReference,
        DeserializeError,
    >)
        ensures
            (match r {
                Ok(v) => deserialize_opaque_data(reg@, wire@) == Ok::<
                    ValueData,
                    DeserializeErrorData,
                >(ValueData { type_tag: v@.type_tag, value: v@.value }) && v.addr == fresh_addr,
                Err(e) => deserialize_opaque_data(reg@, wire@) == Err::<
                    ValueData,
                    DeserializeErrorData,
                >(e@),
            }),
    {
        match deserialize_opaque(reg, wire) {
            Ok(v) => Ok(SharedReference { type_tag: v.type_tag, addr: fresh_addr, value: v.value }),
            Err(e) => Err(e),
        }
    }
}

/// Round-trip: for every registered type with both capabilities and
/// every wrapper of that type, deserializing the serialized form yields a
/// wrapper with the same tag and the same content — equal to the
/// original under value-form (content) equality. For reference-form
/// wrappers the same holds of tag and content, while the identity is the
/// fresh allocation's.
pub proof fn lemma_round_trip(reg: Registry, tag: Option<ValueTypeId>, value: OpaqueData)
    requires
        reg.wf(),
        tag matches Some(ty) && tag_valid(reg@, ty) && reg@.types[ty.id as int].serializable
            && reg@.types[ty.id as int].deserializable && value.type_key == reg@.types[ty.id
            as int].type_key,
    ensures
        serialize_opaque_data(reg@, tag, value) matches Ok(w) && deserialize_opaque_data(reg@, w)
            == Ok::<ValueData, DeserializeErrorData>(ValueData { type_tag: tag, value }),
{
    let ty = tag->0;
    assert(lookup_name(reg@, reg@.types[ty.id as int].global_name) == Some(
        ValueTypeId { id: ty.id as u32 },
    ));
    assert(ValueTypeId { id: ty.id as u32 } == ty);
}

} // verus!

//! Value-identity and resolution core of an incremental, memoizing task
//! engine: the tagged value type flowing between tasks, lazy references to
//! task outputs and cells, the resolution algorithms that collapse such
//! references into concrete data, and the type-registry layer that gives
//! opaque application values stable identity, equality and serializability.

mod codec;
mod convert;
mod ids;
mod input;
mod opaque;
mod registry;
mod render;
mod resolve;

pub use codec::{
    deserialize_opaque_data, lemma_lookup_name_valid, lemma_round_trip, serialize_opaque_data,
    DeserializeError, DeserializeErrorData, SerializeError, SerializedData, SerializedOpaque,
};
pub use convert::{
    first_reject, ConvertError, FromInput, Kind, TransientValue, Value, ValueTypedData,
};
pub use ids::{FunctionId, TaskId, TraitTypeId, TypeKey, ValueTypeId};
pub use input::{is_resolved_data, InputData, RawVc, SlotContent, TaskInput};
pub use opaque::{
    lemma_equality_semantics, OpaqueData, OpaqueValue, ReferenceData, SharedReference,
    SharedValue, ValueData,
};
pub use render::{dec_str, dec_str_signed, describe_data, tags_valid_deep, wrapper_desc};
pub use resolve::{
    chase, lemma_resolved_fast_path, output_of, resolve_data, result_data, slot_data, slot_of,
    Backend, BackendData, ResolveError,
};
pub use registry::{
    input_tag_valid, lists_trait, lookup_method, lookup_name, opaque_tag, tag_valid, Registry,
    RegistryData, TraitType, TraitTypeData, ValueType, ValueTypeData,
};

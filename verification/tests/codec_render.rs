use task_input::{
    ConvertError, DeserializeError, OpaqueValue, Registry, SerializeError, SharedReference,
    SharedValue, TaskId, TaskInput, TransientValue, TypeKey, Value, ValueType, ValueTypeId,
};

fn opaque(key: u64, bytes: &[u8]) -> OpaqueValue {
    OpaqueValue { type_key: TypeKey { key }, bytes: bytes.to_vec() }
}

fn value_type(name: &str, global: &str, key: u64, ser: bool, de: bool) -> ValueType {
    ValueType {
        name: name.to_string(),
        global_name: global.to_string(),
        type_key: TypeKey { key },
        traits: Vec::new(),
        trait_methods: Vec::new(),
        serializable: ser,
        deserializable: de,
    }
}

#[test]
fn untyped_values_never_serialize() {
    let reg = Registry::new();
    let v = SharedValue { type_tag: None, value: opaque(1, b"payload") };
    assert_eq!(v.serialize(&reg), Err(SerializeError::Untyped));
    let r = SharedReference { type_tag: None, addr: 9, value: opaque(1, b"payload") };
    assert_eq!(r.serialize(&reg), Err(SerializeError::Untyped));
}

#[test]
fn serialize_needs_the_capability() {
    let mut reg = Registry::new();
    let ty = reg.register_value_type(value_type("A", "app::A", 1, false, true)).unwrap();
    let v = SharedValue { type_tag: Some(ty), value: opaque(1, b"payload") };
    assert_eq!(v.serialize(&reg), Err(SerializeError::NotSerializable(ty)));
}

#[test]
fn value_round_trip() {
    let mut reg = Registry::new();
    let ty = reg.register_value_type(value_type("A", "app::A", 1, true, true)).unwrap();
    let v = SharedValue { type_tag: Some(ty), value: opaque(1, b"payload") };
    let wire = v.serialize(&reg).expect("registered type serializes");
    assert_eq!(wire.global_name, "app::A".to_string());
    assert_eq!(wire.payload, b"payload".to_vec());
    let back = SharedValue::deserialize(&reg, &wire).expect("round trip");
    // Value-form equality is content equality, so the fresh wrapper is
    // equal to the original.
    assert!(back == v);
    let content = back.downcast(TypeKey { key: 1 }).expect("downcast to the concrete type");
    assert_eq!(content.bytes, b"payload".to_vec());
}

#[test]
fn reference_round_trip_is_fresh() {
    let mut reg = Registry::new();
    let ty = reg.register_value_type(value_type("A", "app::A", 1, true, true)).unwrap();
    let original = SharedReference { type_tag: Some(ty), addr: 5, value: opaque(1, b"payload") };
    let wire = original.serialize(&reg).expect("registered type serializes");
    let back = SharedReference::deserialize(&reg, &wire, 123).expect("round trip");
    // No identity is shared with whatever produced the serialized form,
    // so the wrappers are unequal — but tag and content came through.
    assert!(back != original);
    assert_eq!(back.type_tag, Some(ty));
    let content = back.downcast(TypeKey { key: 1 }).expect("downcast to the concrete type");
    assert_eq!(content.bytes, b"payload".to_vec());
}

#[test]
fn unknown_name_fails_deserialization() {
    let mut reg = Registry::new();
    let ty = reg.register_value_type(value_type("A", "app::A", 1, true, true)).unwrap();
    let v = SharedValue { type_tag: Some(ty), value: opaque(1, b"p") };
    let mut wire = v.serialize(&reg).unwrap();
    wire.global_name = "app::Missing".to_string();
    assert_eq!(
        SharedValue::deserialize(&reg, &wire),
        Err(DeserializeError::UnknownTypeName("app::Missing".to_string()))
    );
}

#[test]
fn missing_capability_fails_deserialization() {
    let mut reg = Registry::new();
    let ty = reg.register_value_type(value_type("A", "app::A", 1, true, false)).unwrap();
    let v = SharedValue { type_tag: Some(ty), value: opaque(1, b"p") };
    let wire = v.serialize(&reg).unwrap();
    assert_eq!(
        SharedValue::deserialize(&reg, &wire),
        Err(DeserializeError::NotDeserializable(ty))
    );
}

#[test]
fn typed_and_transient_values() {
    let ty = ValueTypeId { id: 4 };
    let typed = Value { ty, value: opaque(8, b"t") };
    let input: TaskInput = typed.into();
    match &input {
        TaskInput::SharedValue(sv) => assert_eq!(sv.type_tag, Some(ty)),
        other => panic!("expected a shared value, got {:?}", other),
    }
    let extracted = input.extract_value(ty, TypeKey { key: 8 }).expect("matching key");
    assert_eq!(extracted.value.bytes, b"t".to_vec());
    assert_eq!(
        input.extract_value(ty, TypeKey { key: 9 }),
        Err(ConvertError::ExpectedConcrete(TypeKey { key: 9 }))
    );

    let transient = TransientValue { value: opaque(8, b"t") };
    let input2: TaskInput = transient.into();
    match &input2 {
        TaskInput::SharedValue(sv) => assert_eq!(sv.type_tag, None),
        other => panic!("expected a shared value, got {:?}", other),
    }
    let back = input2.extract_transient(TypeKey { key: 8 }).expect("matching key");
    assert_eq!(back.value.bytes, b"t".to_vec());
    assert_eq!(
        TaskInput::Bool(true).extract_transient(TypeKey { key: 8 }),
        Err(ConvertError::ExpectedConcrete(TypeKey { key: 8 }))
    );
    // A transient value extracts as a typed one too: only the downcast
    // decides.
    assert!(input2.extract_value(ty, TypeKey { key: 8 }).is_ok());
}

#[test]
fn renderings_are_stable() {
    let mut reg = Registry::new();
    let ty = reg.register_value_type(value_type("MyType", "app::MyType", 1, true, true)).unwrap();

    assert_eq!(
        TaskInput::String("x".to_string()).describe(&reg),
        "string \"x\"".to_string()
    );
    assert_eq!(TaskInput::Usize(3).describe(&reg), "usize 3".to_string());
    assert_eq!(TaskInput::U32(40).describe(&reg), "u32 40".to_string());
    assert_eq!(TaskInput::I32(-17).describe(&reg), "i32 -17".to_string());
    assert_eq!(TaskInput::Bool(true).describe(&reg), "bool true".to_string());
    assert_eq!(TaskInput::Nothing.describe(&reg), "nothing".to_string());
    assert_eq!(
        TaskInput::TaskOutput(TaskId { id: 12 }).describe(&reg),
        "task output 12".to_string()
    );
    assert_eq!(
        TaskInput::TaskSlot(TaskId { id: 12 }, 3).describe(&reg),
        "slot 3 in 12".to_string()
    );
    assert_eq!(
        TaskInput::List(vec![TaskInput::Usize(1), TaskInput::Bool(false)]).describe(&reg),
        "list usize 1, bool false".to_string()
    );
    assert_eq!(
        TaskInput::SharedValue(SharedValue { type_tag: Some(ty), value: opaque(1, b"") })
            .describe(&reg),
        "any value".to_string()
    );
    assert_eq!(
        TaskInput::SharedReference(SharedReference {
            type_tag: Some(ty),
            addr: 1,
            value: opaque(1, b""),
        })
        .describe(&reg),
        "shared reference with value of type MyType".to_string()
    );
    assert_eq!(
        TaskInput::SharedReference(SharedReference { type_tag: None, addr: 1, value: opaque(1, b"") })
            .describe(&reg),
        "shared reference with untyped value".to_string()
    );
    let v = SharedValue { type_tag: Some(ty), value: opaque(1, b"") };
    assert_eq!(v.describe(&reg), "value of type MyType".to_string());
    let v2 = SharedValue { type_tag: None, value: opaque(1, b"") };
    assert_eq!(v2.describe(&reg), "untyped value".to_string());
}

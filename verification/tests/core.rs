use task_input::{
    Backend, ConvertError, FromInput, Kind, OpaqueValue, RawVc, Registry, ResolveError,
    SharedReference, SharedValue, TaskId, TaskInput, TraitType, TraitTypeId, TypeKey, ValueType,
    ValueTypeId,
};

fn task(id: u32) -> TaskId {
    TaskId { id }
}

fn opaque(key: u64, bytes: &[u8]) -> OpaqueValue {
    OpaqueValue { type_key: TypeKey { key }, bytes: bytes.to_vec() }
}

#[test]
fn reference_equality_is_identity() {
    // Two independently constructed wrappers around equal content are not
    // equal; two handles to one allocation are, whatever their content.
    let a = SharedReference { type_tag: None, addr: 1, value: opaque(7, b"same") };
    let b = SharedReference { type_tag: None, addr: 2, value: opaque(7, b"same") };
    let c = SharedReference { type_tag: None, addr: 1, value: opaque(9, b"other") };
    assert!(a != b);
    assert!(a == c);
}

#[test]
fn value_equality_is_content() {
    let tag = Some(ValueTypeId { id: 3 });
    let a = SharedValue { type_tag: tag, value: opaque(7, b"same") };
    let b = SharedValue { type_tag: tag, value: opaque(7, b"same") };
    let c = SharedValue { type_tag: tag, value: opaque(7, b"diff") };
    let d = SharedValue { type_tag: None, value: opaque(7, b"same") };
    assert!(a == b);
    assert!(a != c);
    assert!(a != d);
}

#[test]
fn resolved_is_structural() {
    let unresolved = TaskInput::List(vec![
        TaskInput::String("a".to_string()),
        TaskInput::TaskOutput(task(1)),
    ]);
    assert!(!unresolved.is_resolved());
    let resolved = TaskInput::List(vec![TaskInput::String("a".to_string()), TaskInput::Bool(true)]);
    assert!(resolved.is_resolved());
    assert!(TaskInput::Nothing.is_resolved());
    // A slot indirection is not chased by the lightweight check.
    assert!(TaskInput::TaskSlot(task(1), 0).is_resolved());
    assert!(!TaskInput::TaskOutput(task(1)).is_resolved());
}

#[test]
fn chain_collapsing_two_reads() {
    // A's output is B's output reference; B's output is a string.
    let mut backend = Backend::new();
    backend.set_task_output(task(1), TaskInput::TaskOutput(task(2)));
    backend.set_task_output(task(2), TaskInput::String("x".to_string()));
    let r = TaskInput::TaskOutput(task(1)).resolve_to_value(&mut backend, 16);
    assert_eq!(r, Ok(TaskInput::String("x".to_string())));
    assert_eq!(backend.reads, 2);
}

#[test]
fn resolve_to_value_chases_slots() {
    let stored = SharedReference { type_tag: None, addr: 11, value: opaque(5, b"cell") };
    let mut backend = Backend::new();
    backend.set_task_slot(task(4), 2, Some(stored));
    let r = TaskInput::TaskSlot(task(4), 2).resolve_to_value(&mut backend, 16);
    match r {
        Ok(TaskInput::SharedReference(got)) => assert_eq!(got.addr, 11),
        other => panic!("expected a shared reference, got {:?}", other),
    }
    assert_eq!(backend.reads, 1);
}

#[test]
fn empty_slot_reads_as_nothing() {
    let mut backend = Backend::new();
    let r = TaskInput::TaskSlot(task(9), 0).resolve_to_value(&mut backend, 16);
    assert_eq!(r, Ok(TaskInput::Nothing));
    assert_eq!(backend.reads, 1);
}

#[test]
fn unknown_task_is_an_error() {
    let mut backend = Backend::new();
    let r = TaskInput::TaskOutput(task(42)).resolve_to_value(&mut backend, 16);
    assert_eq!(r, Err(ResolveError::UnknownTask(task(42))));
}

#[test]
fn cyclic_chain_exhausts_budget() {
    let mut backend = Backend::new();
    backend.set_task_output(task(1), TaskInput::TaskOutput(task(2)));
    backend.set_task_output(task(2), TaskInput::TaskOutput(task(1)));
    let r = TaskInput::TaskOutput(task(1)).resolve_to_value(&mut backend, 8);
    assert_eq!(r, Err(ResolveError::DepthExceeded));
    assert_eq!(backend.reads, 8);
}

#[test]
fn list_fan_out() {
    let mut backend = Backend::new();
    backend.set_task_output(task(1), TaskInput::Usize(1));
    backend.set_task_output(task(2), TaskInput::Usize(2));
    let input = TaskInput::List(vec![
        TaskInput::TaskOutput(task(1)),
        TaskInput::TaskOutput(task(2)),
    ]);
    let r = input.resolve(&mut backend, 16);
    assert_eq!(r, Ok(TaskInput::List(vec![TaskInput::Usize(1), TaskInput::Usize(2)])));
}

#[test]
fn nested_lists_resolve() {
    let mut backend = Backend::new();
    backend.set_task_output(
        task(1),
        TaskInput::List(vec![TaskInput::TaskOutput(task(2)), TaskInput::Bool(false)]),
    );
    backend.set_task_output(task(2), TaskInput::U32(7));
    let r = TaskInput::TaskOutput(task(1)).resolve(&mut backend, 16);
    assert_eq!(r, Ok(TaskInput::List(vec![TaskInput::U32(7), TaskInput::Bool(false)])));
}

#[test]
fn resolve_leaves_slots_alone() {
    // The full-resolution entry point deliberately does not chase cell
    // indirections: an element that is a slot reference stays one.
    let mut backend = Backend::new();
    let input = TaskInput::List(vec![TaskInput::TaskSlot(task(3), 1)]);
    let r = input.resolve(&mut backend, 16);
    assert_eq!(r, Ok(TaskInput::List(vec![TaskInput::TaskSlot(task(3), 1)])));
    assert_eq!(backend.reads, 0);
}

#[test]
fn fast_path_zero_reads() {
    let mut backend = Backend::new();
    backend.set_task_output(task(1), TaskInput::Usize(1));
    let input = TaskInput::List(vec![
        TaskInput::String("a".to_string()),
        TaskInput::Bool(true),
        TaskInput::List(vec![TaskInput::I32(-4)]),
    ]);
    let r = input.resolve(&mut backend, 16);
    assert_eq!(
        r,
        Ok(TaskInput::List(vec![
            TaskInput::String("a".to_string()),
            TaskInput::Bool(true),
            TaskInput::List(vec![TaskInput::I32(-4)]),
        ]))
    );
    assert_eq!(backend.reads, 0);
}

#[test]
fn extraction_mismatch_names_u32() {
    let input = TaskInput::String("x".to_string());
    let r: Result<u32, ConvertError> = u32::from_input(&input);
    assert_eq!(r, Err(ConvertError::Expected(Kind::U32)));
}

#[test]
fn extraction_of_bool_vec() {
    let input = TaskInput::List(vec![TaskInput::Bool(true), TaskInput::Bool(false)]);
    let r: Result<Vec<bool>, ConvertError> = Vec::<bool>::from_input(&input);
    assert_eq!(r, Ok(vec![true, false]));
}

#[test]
fn extraction_stops_at_first_bad_element() {
    let input = TaskInput::List(vec![
        TaskInput::Bool(true),
        TaskInput::Usize(1),
        TaskInput::String("no".to_string()),
    ]);
    let r: Result<Vec<bool>, ConvertError> = Vec::<bool>::from_input(&input);
    assert_eq!(r, Err(ConvertError::Expected(Kind::Bool)));
}

#[test]
fn primitive_extractions() {
    assert_eq!(String::from_input(&TaskInput::String("s".to_string())), Ok("s".to_string()));
    assert_eq!(bool::from_input(&TaskInput::Bool(true)), Ok(true));
    assert_eq!(usize::from_input(&TaskInput::Usize(3)), Ok(3));
    assert_eq!(i32::from_input(&TaskInput::I32(-7)), Ok(-7));
    assert_eq!(u32::from_input(&TaskInput::U32(7)), Ok(7));
    assert_eq!(
        String::from_input(&TaskInput::Bool(false)),
        Err(ConvertError::Expected(Kind::String))
    );
    assert_eq!(bool::from_input(&TaskInput::Nothing), Err(ConvertError::Expected(Kind::Bool)));
    assert_eq!(usize::from_input(&TaskInput::U32(1)), Err(ConvertError::Expected(Kind::Usize)));
    assert_eq!(i32::from_input(&TaskInput::U32(1)), Err(ConvertError::Expected(Kind::I32)));
    assert_eq!(
        Vec::<bool>::from_input(&TaskInput::Bool(true)),
        Err(ConvertError::Expected(Kind::List))
    );
}

#[test]
fn raw_vc_round_trip() {
    let vc = RawVc::TaskOutput(task(5));
    let input: TaskInput = vc.into();
    assert_eq!(input, TaskInput::TaskOutput(task(5)));
    assert_eq!(RawVc::from_input(&input), Ok(vc));
    let slot = RawVc::TaskSlot(task(5), 3);
    let input2: TaskInput = slot.into();
    assert_eq!(RawVc::from_input(&input2), Ok(slot));
    assert_eq!(
        RawVc::from_input(&TaskInput::Nothing),
        Err(ConvertError::Expected(Kind::CellRef))
    );
}

#[test]
fn from_conversions() {
    let s: TaskInput = "hi".to_string().into();
    assert_eq!(s, TaskInput::String("hi".to_string()));
    let b: TaskInput = true.into();
    assert_eq!(b, TaskInput::Bool(true));
    let u: TaskInput = 3usize.into();
    assert_eq!(u, TaskInput::Usize(3));
    let i: TaskInput = (-2i32).into();
    assert_eq!(i, TaskInput::I32(-2));
    let v: TaskInput = 9u32.into();
    assert_eq!(v, TaskInput::U32(9));
    let l: TaskInput = vec![TaskInput::Bool(true)].into();
    assert_eq!(l, TaskInput::List(vec![TaskInput::Bool(true)]));
}

#[test]
fn get_task_id_and_is_nothing() {
    assert_eq!(TaskInput::TaskOutput(task(1)).get_task_id(), Some(task(1)));
    assert_eq!(TaskInput::TaskSlot(task(2), 7).get_task_id(), Some(task(2)));
    assert_eq!(TaskInput::Bool(true).get_task_id(), None);
    assert!(TaskInput::Nothing.is_nothing());
    assert!(!TaskInput::Bool(false).is_nothing());
}

fn value_type(name: &str, global: &str, key: u64) -> ValueType {
    ValueType {
        name: name.to_string(),
        global_name: global.to_string(),
        type_key: TypeKey { key },
        traits: Vec::new(),
        trait_methods: Vec::new(),
        serializable: true,
        deserializable: true,
    }
}

#[test]
fn registry_registration_and_lookup() {
    let mut reg = Registry::new();
    let a = reg.register_value_type(value_type("A", "app::A", 1)).unwrap();
    let b = reg.register_value_type(value_type("B", "app::B", 2)).unwrap();
    assert_ne!(a, b);
    assert_eq!(reg.get_value_type_id_by_global_name(&"app::A".to_string()), Some(a));
    assert_eq!(reg.get_value_type_id_by_global_name(&"app::B".to_string()), Some(b));
    assert_eq!(reg.get_value_type_id_by_global_name(&"app::C".to_string()), None);
    // A second registration under a taken global name is refused.
    assert_eq!(reg.register_value_type(value_type("A2", "app::A", 3)), None);
}

#[test]
fn trait_queries() {
    let mut reg = Registry::new();
    let tr = reg.register_trait_type(TraitType { name: "Describe".to_string() }).unwrap();
    let other = TraitTypeId { id: tr.id + 1 };
    let mut vt = value_type("A", "app::A", 1);
    vt.traits.push(tr);
    vt.trait_methods.push((tr, "render".to_string(), task_input::FunctionId { id: 77 }));
    let ty = reg.register_value_type(vt).unwrap();

    let tagged = TaskInput::SharedValue(SharedValue {
        type_tag: Some(ty),
        value: opaque(1, b"v"),
    });
    assert!(tagged.has_trait(&reg, tr));
    assert!(!tagged.has_trait(&reg, other));
    assert_eq!(
        tagged.get_trait_method(&reg, tr, &"render".to_string()),
        Some(task_input::FunctionId { id: 77 })
    );
    assert_eq!(tagged.get_trait_method(&reg, tr, &"missing".to_string()), None);
    assert_eq!(tagged.traits(&reg), vec![tr]);

    let untagged = TaskInput::SharedValue(SharedValue { type_tag: None, value: opaque(1, b"v") });
    assert!(!untagged.has_trait(&reg, tr));
    assert_eq!(untagged.traits(&reg), Vec::<TraitTypeId>::new());

    let plain = TaskInput::Bool(true);
    assert!(!plain.has_trait(&reg, tr));
    assert_eq!(plain.get_trait_method(&reg, tr, &"render".to_string()), None);
    assert_eq!(plain.traits(&reg), Vec::<TraitTypeId>::new());
}

#[test]
fn downcast_checks_the_type_key() {
    let v = SharedValue { type_tag: None, value: opaque(7, b"data") };
    let got = v.downcast(TypeKey { key: 7 }).expect("matching key downcasts");
    assert_eq!(got.bytes, b"data".to_vec());
    let v2 = SharedValue { type_tag: None, value: opaque(7, b"data") };
    assert!(v2.downcast(TypeKey { key: 8 }).is_none());

    let r = SharedReference { type_tag: None, addr: 1, value: opaque(7, b"data") };
    assert!(r.downcast(TypeKey { key: 7 }).is_some());
    let r2 = SharedReference { type_tag: None, addr: 1, value: opaque(7, b"data") };
    assert!(r2.downcast(TypeKey { key: 9 }).is_none());
}

#[test]
fn list_error_is_the_first_failure() {
    let mut backend = Backend::new();
    backend.set_task_output(task(2), TaskInput::Bool(true));
    let input = TaskInput::List(vec![
        TaskInput::TaskOutput(task(7)),
        TaskInput::TaskOutput(task(8)),
        TaskInput::TaskOutput(task(2)),
    ]);
    let r = input.resolve(&mut backend, 16);
    assert_eq!(r, Err(ResolveError::UnknownTask(task(7))));
}

#[test]
fn zero_budget_rejects_any_indirection() {
    let mut backend = Backend::new();
    backend.set_task_output(task(1), TaskInput::Bool(true));
    let r = TaskInput::TaskOutput(task(1)).resolve(&mut backend, 0);
    assert_eq!(r, Err(ResolveError::DepthExceeded));
    let r2 = TaskInput::TaskOutput(task(1)).resolve_to_value(&mut backend, 0);
    assert_eq!(r2, Err(ResolveError::DepthExceeded));
    // A terminal value still resolves without any budget or read.
    let r3 = TaskInput::Bool(false).resolve(&mut backend, 0);
    assert_eq!(r3, Ok(TaskInput::Bool(false)));
}

use sol_modules::{ModuleId, ModuleRegistry, RegistryError};

/// A module living in a host-owned table; the registry holds its index.
#[derive(Debug)]
struct TestModule {
    id: ModuleId,
    some_payload: i32,
}

impl TestModule {
    fn new(id: ModuleId) -> Self {
        TestModule { id, some_payload: 0 }
    }
}

#[test]
fn single_registration_test() {
    let id = ModuleId(1);
    let modules = vec![TestModule::new(id)];
    let module_index: usize = 0;
    let mut registry: ModuleRegistry<usize> = ModuleRegistry::default();

    registry.register(id, module_index).unwrap();

    let retrieved = registry.get_raw(id);
    assert!(retrieved.is_some());
    assert!(modules[retrieved.unwrap()].id == id);
    assert!(retrieved.unwrap() == module_index);

    registry.unregister(id).unwrap();
    let retrieved = registry.get_raw(id);
    assert!(retrieved.is_none());
}

#[test]
#[should_panic]
fn duplicate_registration_test() {
    let id = ModuleId(1);
    let _modules = vec![TestModule::new(id), TestModule::new(id)];
    let mut registry: ModuleRegistry<usize> = ModuleRegistry::default();

    registry.register(id, 0).unwrap();
    registry.register(id, 1).unwrap();
}

#[test]
fn different_module_registration_test() {
    let first_id = ModuleId(1);
    let second_id = ModuleId(2);
    let modules = vec![TestModule::new(first_id), TestModule::new(second_id)];
    let mut registry: ModuleRegistry<usize> = ModuleRegistry::default();

    registry.register(first_id, 0).unwrap();
    registry.register(second_id, 1).unwrap();

    let first = registry.get_raw(first_id).unwrap();
    assert!(first == 0);
    assert!(modules[first].id == first_id);

    let second = registry.get_raw(second_id).unwrap();
    assert!(second == 1);
    assert!(modules[second].id == second_id);
}

#[test]
#[should_panic]
fn bad_unregister_id_panics_test() {
    let bogus_id = ModuleId(404);
    let mut registry: ModuleRegistry<usize> = ModuleRegistry::default();
    registry.unregister(bogus_id).unwrap();
}

#[test]
#[should_panic]
fn duplicate_register_panics_test() {
    let id = ModuleId(7);
    let mut registry: ModuleRegistry<usize> = ModuleRegistry::default();
    registry.register(id, 0).unwrap();
    registry.register(id, 1).unwrap();
}

#[test]
fn get_mut_test() {
    let id = ModuleId(7);
    let mut modules = vec![TestModule::new(id)];
    let mut registry: ModuleRegistry<usize> = ModuleRegistry::default();
    registry.register(id, 0).unwrap();

    let index = registry.get_raw(id).unwrap();
    modules[index].some_payload = 42;
    assert_eq!(modules[0].some_payload, 42);

    assert!(registry.get_raw(ModuleId(999)).is_none());
}

#[test]
fn duplicate_register_is_reported_and_keeps_first() {
    let id = ModuleId(3);
    let mut registry: ModuleRegistry<usize> = ModuleRegistry::new();
    assert_eq!(registry.register(id, 10), Ok(()));
    assert_eq!(registry.register(id, 11), Err(RegistryError::DuplicateId(id)));
    assert_eq!(registry.get_raw(id), Some(10));
}

#[test]
fn unknown_unregister_is_reported() {
    let mut registry: ModuleRegistry<usize> = ModuleRegistry::new();
    registry.register(ModuleId(1), 5).unwrap();
    assert_eq!(registry.unregister(ModuleId(2)), Err(RegistryError::UnknownId(ModuleId(2))));
    assert!(registry.contains(ModuleId(1)));
}

#[test]
fn lookup_after_unregister_is_absent() {
    let mut registry: ModuleRegistry<usize> = ModuleRegistry::new();
    registry.register(ModuleId(1), 5).unwrap();
    registry.register(ModuleId(2), 6).unwrap();
    registry.unregister(ModuleId(1)).unwrap();
    assert_eq!(registry.get_raw(ModuleId(1)), None);
    assert!(!registry.contains(ModuleId(1)));
    assert_eq!(registry.get_raw(ModuleId(2)), Some(6));
}

#[test]
fn reregister_after_unregister_takes_new_descriptor() {
    let mut registry: ModuleRegistry<usize> = ModuleRegistry::new();
    registry.register(ModuleId(1), 5).unwrap();
    registry.unregister(ModuleId(1)).unwrap();
    registry.register(ModuleId(1), 8).unwrap();
    assert_eq!(registry.get_raw(ModuleId(1)), Some(8));
}

#[test]
fn shutdown_hands_back_each_registration_once_and_empties() {
    let mut registry: ModuleRegistry<usize> = ModuleRegistry::new();
    registry.register(ModuleId(1), 10).unwrap();
    registry.register(ModuleId(2), 20).unwrap();
    registry.register(ModuleId(3), 30).unwrap();
    registry.unregister(ModuleId(2)).unwrap();

    let mut shut = registry.shutdown();
    shut.sort_by_key(|e| e.0 .0);
    assert_eq!(shut, vec![(ModuleId(1), 10), (ModuleId(3), 30)]);
    assert!(!registry.contains(ModuleId(1)));
    assert!(!registry.contains(ModuleId(3)));

    let again = registry.shutdown();
    assert!(again.is_empty());
}

#[test]
fn shutdown_on_empty_registry_is_a_no_op() {
    let mut registry: ModuleRegistry<usize> = ModuleRegistry::new();
    assert!(registry.shutdown().is_empty());
    assert!(!registry.contains(ModuleId(0)));
}

#[test]
fn module_id_value() {
    assert_eq!(ModuleId(-4).value(), -4);
}

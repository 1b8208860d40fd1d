use mocktopus::mocking::{get_mock_id, MockContainer, MockStore, Mockable, Slot};

fn first() -> u8 {
    1
}

fn second() -> u8 {
    2
}

fn id_of_first() -> mocktopus::mocking::MockId {
    get_mock_id(&first)
}

#[test]
fn ids_tell_functions_apart() {
    assert!(get_mock_id(&first).same_as(&get_mock_id(&first)));
    assert!(!get_mock_id(&first).same_as(&get_mock_id(&second)));
    assert!(id_of_first().same_as(&get_mock_id(&first)));
}

#[test]
fn empty_store_hands_out_nothing() {
    let mut store: MockStore<String> = MockStore::new();
    assert_eq!(None, store.begin_call(&get_mock_id(&first)));
}

#[test]
fn registered_mock_is_handed_out_once() {
    let mut store: MockStore<String> = MockStore::new();
    let id = first.mock_raw(&mut store, "m".to_string());
    assert!(id.same_as(&get_mock_id(&first)));
    assert_eq!(Some("m".to_string()), store.begin_call(&id));
    // While it runs, the same function is not mocked again.
    assert_eq!(None, store.begin_call(&id));
    store.end_call(&id, "m2".to_string());
    // The mock, as the call left it, is back.
    assert_eq!(Some("m2".to_string()), store.begin_call(&id));
}

#[test]
fn registering_for_one_function_leaves_others_alone() {
    let mut store: MockStore<String> = MockStore::new();
    first.mock_safe(&mut store, "m".to_string());
    assert_eq!(None, store.begin_call(&get_mock_id(&second)));
    assert_eq!(Some("m".to_string()), store.begin_call(&get_mock_id(&first)));
}

#[test]
fn mock_registered_during_call_replaces_running_one() {
    let mut store: MockStore<String> = MockStore::new();
    let id = first.mock_raw(&mut store, "old".to_string());
    let running = store.begin_call(&id).unwrap();
    first.mock_raw(&mut store, "new".to_string());
    store.end_call(&id, running);
    assert_eq!(Some("new".to_string()), store.begin_call(&id));
}

#[test]
fn last_registration_wins() {
    let mut store: MockStore<String> = MockStore::new();
    first.mock_raw(&mut store, "a".to_string());
    first.mock_extra_safe(&mut store, MockContainer { mock: "b".to_string() });
    assert_eq!(Some("b".to_string()), store.begin_call(&get_mock_id(&first)));
}

#[test]
fn finishing_unmocked_call_changes_nothing() {
    let mut store: MockStore<String> = MockStore::new();
    store.end_call(&get_mock_id(&first), "x".to_string());
    assert_eq!(None, store.begin_call(&get_mock_id(&first)));
}

#[test]
fn slot_reports_running() {
    assert!(Slot::<u8>::Running.is_running());
    assert!(!Slot::Idle(1u8).is_running());
}

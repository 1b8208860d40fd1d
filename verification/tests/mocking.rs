// Each mockable function here consults an explicit registry the way an
// injected header does: it asks the registry for a mock, runs it if it got
// one, and either returns the mock's result or runs its own body.

use mocktopus::mocking::{get_mock_id, MockId, MockResult, MockStore, Mockable};
use std::cell::RefCell;
use std::fmt::Display;

type StrMock = Box<dyn FnMut(&Registry) -> MockResult<(), String>>;

struct Registry {
    store: RefCell<MockStore<StrMock>>,
}

impl Registry {
    fn new() -> Registry {
        Registry { store: RefCell::new(MockStore::new()) }
    }

    fn call_mock(&self, id: MockId) -> MockResult<(), String> {
        let taken = self.store.borrow_mut().begin_call(&id);
        match taken {
            Some(mut mock) => {
                let result = mock(self);
                self.store.borrow_mut().end_call(&id, mock);
                result
            }
            None => MockResult::Continue(()),
        }
    }

    fn mock<F: Mockable<(&'static Registry,)>>(&self, f: F, mock: StrMock) {
        f.mock_safe(&mut self.store.borrow_mut(), mock);
    }
}

fn no_args_returns_str(reg: &Registry) -> String {
    if let MockResult::Return(out) = reg.call_mock(get_mock_id(&no_args_returns_str)) {
        return out;
    }
    "not mocked".to_string()
}

fn mockable_1(reg: &Registry) -> String {
    if let MockResult::Return(out) = reg.call_mock(get_mock_id(&mockable_1)) {
        return out;
    }
    "not mocked 1".to_string()
}

fn mockable_2(reg: &Registry) -> String {
    if let MockResult::Return(out) = reg.call_mock(get_mock_id(&mockable_2)) {
        return out;
    }
    "not mocked 2".to_string()
}

fn not_mockable() -> String {
    "not mockable".to_string()
}

fn leak(reg: Registry) -> &'static Registry {
    Box::leak(Box::new(reg))
}

#[test]
fn when_not_mocked_then_returns_not_mocked() {
    let reg = leak(Registry::new());
    assert_eq!("not mocked", no_args_returns_str(reg));
}

#[test]
fn when_mocked_then_returns_mocked() {
    let reg = leak(Registry::new());
    reg.mock(no_args_returns_str, Box::new(|_| MockResult::Return("mocked".to_string())));

    assert_eq!("mocked", no_args_returns_str(reg));
}

#[test]
fn when_not_mocked_then_runs_normally() {
    let reg = leak(Registry::new());
    assert_eq!("not mocked", no_args_returns_str(reg));
}

#[test]
fn when_mocked_then_runs_mocks_with_state() {
    let reg = leak(Registry::new());
    let mut x = 0;
    reg.mock(
        no_args_returns_str,
        Box::new(move |_| {
            x += 1;
            match x {
                1 => MockResult::Return("first mock".to_string()),
                _ => MockResult::Return("other mock".to_string()),
            }
        }),
    );

    assert_eq!("first mock", no_args_returns_str(reg));
    assert_eq!("other mock", no_args_returns_str(reg));
}

#[test]
fn when_calling_itself_then_does_not_run_mock() {
    let reg = leak(Registry::new());
    let mut first_call = true;
    reg.mock(
        mockable_1,
        Box::new(move |r| match first_call {
            true => {
                first_call = false;
                MockResult::Return(format!("mocked 1 {}", mockable_1(r)))
            }
            false => panic!("Mock called second time"),
        }),
    );

    assert_eq!("mocked 1 not mocked 1", mockable_1(reg));
}

#[test]
fn when_calling_not_mocked_function_then_runs_it_normally() {
    let reg = leak(Registry::new());
    reg.mock(mockable_1, Box::new(|r| MockResult::Return(format!("mocked 1 {}", mockable_2(r)))));

    assert_eq!("mocked 1 not mocked 2", mockable_1(reg));
}

#[test]
fn when_calling_mocked_function_then_runs_its_mock() {
    let reg = leak(Registry::new());
    reg.mock(mockable_1, Box::new(|r| MockResult::Return(format!("mocked 1 {}", mockable_2(r)))));
    reg.mock(mockable_2, Box::new(|_| MockResult::Return("mocked 2".to_string())));

    assert_eq!("mocked 1 mocked 2", mockable_1(reg));
}

#[test]
fn when_calling_not_mockable_function_then_runs_it_normally() {
    let reg = leak(Registry::new());
    reg.mock(mockable_1, Box::new(|_| MockResult::Return(format!("mocked 1 {}", not_mockable()))));

    assert_eq!("mocked 1 not mockable", mockable_1(reg));
}

#[test]
fn when_creating_mock_of_itself_then_registers_mock() {
    let reg = leak(Registry::new());
    reg.mock(
        mockable_1,
        Box::new(|r| {
            r.mock(mockable_1, Box::new(|_| MockResult::Return("mocked 1B".to_string())));
            MockResult::Return("mocked 1A".to_string())
        }),
    );

    assert_eq!("mocked 1A", mockable_1(reg));
    assert_eq!("mocked 1B", mockable_1(reg));
}

#[test]
fn when_creating_mock_of_itself_and_calling_itself_then_runs_new_mock() {
    let reg = leak(Registry::new());
    reg.mock(
        mockable_1,
        Box::new(|r| {
            r.mock(mockable_1, Box::new(|_| MockResult::Return("mocked 1B".to_string())));
            MockResult::Return(format!("mocked 1A {}", mockable_1(r)))
        }),
    );

    assert_eq!("mocked 1A mocked 1B", mockable_1(reg));
}

#[test]
fn when_creating_mock_of_other_function_then_registers_mock() {
    let reg = leak(Registry::new());
    reg.mock(
        mockable_1,
        Box::new(|r| {
            r.mock(mockable_2, Box::new(|_| MockResult::Return("mocked 2".to_string())));
            MockResult::Return("mocked 1".to_string())
        }),
    );

    assert_eq!("not mocked 2", mockable_2(reg));
    assert_eq!("mocked 1", mockable_1(reg));
    assert_eq!("mocked 2", mockable_2(reg));
}

#[test]
fn when_creating_mock_of_other_function_and_calling_it_then_runs_new_mock() {
    let reg = leak(Registry::new());
    reg.mock(
        mockable_1,
        Box::new(|r| {
            r.mock(mockable_2, Box::new(|_| MockResult::Return("mocked 2".to_string())));
            MockResult::Return(format!("mocked 1 {}", mockable_2(r)))
        }),
    );

    assert_eq!("mocked 1 mocked 2", mockable_1(reg));
}

// A generic function is mocked per instantiation.

type DisplayMock = Box<dyn FnMut(&dyn Display) -> MockResult<(), String>>;

fn generic_function<T: Display>(store: &RefCell<MockStore<DisplayMock>>, generic: T) -> String {
    let id = get_mock_id(&generic_function::<T>);
    let taken = store.borrow_mut().begin_call(&id);
    if let Some(mut mock) = taken {
        let result = mock(&generic);
        store.borrow_mut().end_call(&id, mock);
        if let MockResult::Return(out) = result {
            return out;
        }
    }
    format!("not mocked {}", generic)
}

fn mock_generic<F: Mockable<(&'static RefCell<MockStore<DisplayMock>>, G)>, G>(
    store: &RefCell<MockStore<DisplayMock>>,
    f: F,
    mock: DisplayMock,
) {
    f.mock_raw(&mut store.borrow_mut(), mock);
}

#[test]
fn all_lifetime_variants_get_mocked() {
    let store: &'static RefCell<MockStore<DisplayMock>> = Box::leak(Box::new(RefCell::new(MockStore::new())));
    mock_generic(store, generic_function::<&char>, Box::new(|c| MockResult::Return(format!("mocked {}", c))));
    let local_char = 'L';
    static STATIC_CHAR: char = 'S';

    assert_eq!("mocked L", generic_function(store, &local_char));
    assert_eq!("mocked S", generic_function(store, &STATIC_CHAR));
    assert_eq!("not mocked 3", generic_function(store, &3));
}

#[test]
fn mocking_for_ref_does_not_mock_for_mut_ref() {
    let store: &'static RefCell<MockStore<DisplayMock>> = Box::leak(Box::new(RefCell::new(MockStore::new())));
    mock_generic(store, generic_function::<&char>, Box::new(|c| MockResult::Return(format!("mocked {}", c))));

    assert_eq!("mocked R", generic_function(store, &'R'));
    assert_eq!("not mocked M", generic_function(store, &mut 'M'));
}

#[test]
fn mocking_for_mut_ref_does_not_mock_for_ref() {
    let store: &'static RefCell<MockStore<DisplayMock>> = Box::leak(Box::new(RefCell::new(MockStore::new())));
    mock_generic(store, generic_function::<&mut char>, Box::new(|c| MockResult::Return(format!("mocked {}", c))));

    assert_eq!("not mocked R", generic_function(store, &'R'));
    assert_eq!("mocked M", generic_function(store, &mut 'M'));
}

// A trait's default method is mocked per implementing type: its header
// names the method through `Self::`, as the injector writes it.

trait Trait {
    fn function(reg: &Registry) -> String {
        if let MockResult::Return(out) = reg.call_mock(get_mock_id(&Self::function)) {
            return out;
        }
        "not mocked".to_string()
    }
}

struct Struct1;
struct Struct2;

impl Trait for Struct1 {}

impl Trait for Struct2 {}

#[test]
fn when_not_mocked_then_both_run_normally() {
    let reg = leak(Registry::new());
    assert_eq!("not mocked", Struct1::function(reg));
    assert_eq!("not mocked", Struct2::function(reg));
}

#[test]
fn when_mocked_for_one_then_runs_mock_for_it_and_runs_normally_for_other() {
    let reg = leak(Registry::new());
    reg.mock(<Struct1 as Trait>::function, Box::new(|_| MockResult::Return("mocked".to_string())));

    assert_eq!("mocked", Struct1::function(reg));
    assert_eq!("not mocked", Struct2::function(reg));
}

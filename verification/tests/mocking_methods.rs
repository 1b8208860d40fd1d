// Methods of a generic struct, written the way the injector rewrites them
// (see `impl_with_receivers_gets_headers` in tests/injector.rs for the
// headers it prints): the receiver becomes a mutable binding, and the header
// asks the registry for a mock, then either returns the mock's result or
// rebinds the receiver and the other parameters to what the mock passed on.
// The registry is passed in explicitly, as an extra parameter that the
// header does not forward.

use mocktopus::mocking::{get_mock_id, MockResult, MockStore, Mockable};
use std::cell::RefCell;
use std::fmt::Display;

type Registry<'m, I, O> = RefCell<MockStore<Box<dyn FnMut(I) -> MockResult<I, O> + 'm>>>;

fn call_mock<I, O>(reg: &Registry<'_, I, O>, id: mocktopus::mocking::MockId, input: I) -> MockResult<I, O> {
    let taken = reg.borrow_mut().begin_call(&id);
    match taken {
        Some(mut mock) => {
            let result = mock(input);
            reg.borrow_mut().end_call(&id, mock);
            result
        }
        None => MockResult::Continue(input),
    }
}

struct Struct<T>(T);

impl<T: Display + Default> Struct<T> {
    fn static_method(reg: &Registry<'_, (bool,), String>, arg: bool) -> String {
        let (arg,) = match call_mock(reg, get_mock_id(&Self::static_method), (arg,)) {
            MockResult::Continue(input) => input,
            MockResult::Return(output) => return output,
        };
        format!("{}", arg)
    }

    fn ref_method<'a>(mut self: &'a Self, reg: &Registry<'_, (&'a Struct<T>, bool), String>, arg: bool) -> String {
        let (arg,) = match call_mock(reg, get_mock_id(&Self::ref_method), (self, arg)) {
            MockResult::Continue((__mock_receiver, arg)) => {
                self = __mock_receiver;
                (arg,)
            }
            MockResult::Return(output) => return output,
        };
        format!("{} {}", self.0, arg)
    }

    fn ref_mut_method<'a>(
        mut self: &'a mut Self,
        reg: &Registry<'_, (&'a mut Struct<T>, bool), String>,
        arg: bool,
    ) -> String {
        let (arg,) = match call_mock(reg, get_mock_id(&Self::ref_mut_method), (self, arg)) {
            MockResult::Continue((__mock_receiver, arg)) => {
                self = __mock_receiver;
                (arg,)
            }
            MockResult::Return(output) => return output,
        };
        self.0 = T::default();
        format!("{} {}", self.0, arg)
    }

    fn val_method(mut self, reg: &Registry<'_, (Struct<T>, bool), String>, arg: bool) -> String {
        let (arg,) = match call_mock(reg, get_mock_id(&Self::val_method), (self, arg)) {
            MockResult::Continue((__mock_receiver, arg)) => {
                self = __mock_receiver;
                (arg,)
            }
            MockResult::Return(output) => return output,
        };
        format!("{} {}", self.0, arg)
    }
}

fn registry<'m, I, O>() -> Registry<'m, I, O> {
    RefCell::new(MockStore::new())
}

#[test]
fn and_not_mocked_then_runs_normally() {
    let statics = registry();
    assert_eq!("true", Struct::<u8>::static_method(&statics, true));
    assert_eq!("true", Struct::<&str>::static_method(&statics, true));
}

#[test]
fn when_struct_generic_method_regular_and_not_mocked_then_runs_normally() {
    assert_eq!("2 true", Struct(2u8).ref_method(&registry(), true));
    assert_eq!("abc true", Struct("abc").ref_method(&registry(), true));

    let mut struct_2 = Struct(2u8);
    let mut struct_str = Struct("str");
    assert_eq!("0 true", struct_2.ref_mut_method(&registry(), true));
    assert_eq!(0, struct_2.0);
    assert_eq!(" true", struct_str.ref_mut_method(&registry(), true));
    assert_eq!("", struct_str.0);

    assert_eq!("2 true", Struct(2u8).val_method(&registry(), true));
    assert_eq!("abc true", Struct("abc").val_method(&registry(), true));
}

#[test]
fn and_continue_mocked_then_runs_with_modified_args_for_mocked_type_only() {
    let reg = registry();
    Struct::<u8>::static_method.mock_raw(&mut reg.borrow_mut(), Box::new(|(a,): (bool,)| MockResult::Continue((!a,))));

    assert_eq!("false", Struct::<u8>::static_method(&reg, true));
    assert_eq!("true", Struct::<&str>::static_method(&reg, true));
}

#[test]
fn and_return_mocked_then_returns_mocking_result_for_mocked_type_only() {
    let reg = registry();
    Struct::<u8>::static_method.mock_raw(
        &mut reg.borrow_mut(),
        Box::new(|(a,): (bool,)| MockResult::Return(format!("mocked {}", a))),
    );

    assert_eq!("mocked true", Struct::<u8>::static_method(&reg, true));
    assert_eq!("true", Struct::<&str>::static_method(&reg, true));
}

#[test]
fn when_struct_generic_method_regular_and_continue_mocked_then_runs_with_modified_args() {
    let struct_2 = Struct(2u8);
    let struct_3 = Struct(3u8);
    let reg = registry();
    Struct::<u8>::ref_method.mock_raw(
        &mut reg.borrow_mut(),
        Box::new(|(_, b): (&Struct<u8>, bool)| MockResult::Continue((&struct_3, !b))),
    );

    assert_eq!("3 false", struct_2.ref_method(&reg, true));
    assert_eq!(2, struct_2.0);
    assert_eq!(3, struct_3.0);
    assert_eq!("abc true", Struct("abc").ref_method(&registry(), true));

    let mut struct_2 = Struct(2u8);
    let mut struct_3 = Struct(3u8);
    let mut struct_str = Struct("str");
    {
        let reg = registry();
        let mut target = Some(&mut struct_3);
        Struct::<u8>::ref_mut_method.mock_raw(
            &mut reg.borrow_mut(),
            Box::new(move |(_, b): (&mut Struct<u8>, bool)| {
                MockResult::Continue((target.take().expect("called once"), !b))
            }),
        );
        assert_eq!("0 false", struct_2.ref_mut_method(&reg, true));
    }
    assert_eq!(2, struct_2.0);
    assert_eq!(0, struct_3.0);
    assert_eq!(" true", struct_str.ref_mut_method(&registry(), true));
    assert_eq!("", struct_str.0);

    let reg = registry();
    Struct::<u8>::val_method.mock_raw(
        &mut reg.borrow_mut(),
        Box::new(|(_, b): (Struct<u8>, bool)| MockResult::Continue((Struct(3u8), !b))),
    );
    assert_eq!("3 false", Struct(2u8).val_method(&reg, true));
    assert_eq!("abc true", Struct("abc").val_method(&registry(), true));
}

#[test]
fn when_struct_generic_method_regular_and_return_mocked_then_returns_mocking_result() {
    let struct_2 = Struct(2u8);
    let reg = registry();
    Struct::<u8>::ref_method.mock_raw(
        &mut reg.borrow_mut(),
        Box::new(|(a, b): (&Struct<u8>, bool)| MockResult::Return(format!("mocked {} {}", a.0, b))),
    );

    assert_eq!("mocked 2 true", struct_2.ref_method(&reg, true));
    assert_eq!(2, struct_2.0);
    assert_eq!("abc true", Struct("abc").ref_method(&registry(), true));

    let mut struct_2 = Struct(2u8);
    let mut struct_str = Struct("str");
    {
        let reg = registry();
        Struct::<u8>::ref_mut_method.mock_raw(
            &mut reg.borrow_mut(),
            Box::new(|(a, b): (&mut Struct<u8>, bool)| MockResult::Return(format!("mocked {} {}", a.0, b))),
        );
        assert_eq!("mocked 2 true", struct_2.ref_mut_method(&reg, true));
    }
    assert_eq!(2, struct_2.0);
    assert_eq!(" true", struct_str.ref_mut_method(&registry(), true));
    assert_eq!("", struct_str.0);

    let reg = registry();
    Struct::<u8>::val_method.mock_raw(
        &mut reg.borrow_mut(),
        Box::new(|(a, b): (Struct<u8>, bool)| MockResult::Return(format!("mocked {} {}", a.0, b))),
    );
    assert_eq!("mocked 2 true", Struct(2u8).val_method(&reg, true));
    assert_eq!("abc true", Struct("abc").val_method(&registry(), true));
}

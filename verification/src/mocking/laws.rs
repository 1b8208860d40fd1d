use crate::mocking::mock_id::MockId;
use crate::mocking::store::{call_finished, call_started, registered, Slot};
use vstd::prelude::*;

verus! {

/// Once a mock is registered for a function, the next call of that function
/// runs that mock.
pub proof fn law_registered_mock_runs<M>(store: Map<MockId, Slot<M>>, id: MockId, mock: M)
    ensures
        call_started(registered(store, id, mock), id) == (
            store.insert(id, Slot::<M>::Running),
            Some(mock),
        ),
{
    assert(registered(store, id, mock).insert(id, Slot::<M>::Running) =~= store.insert(
        id,
        Slot::<M>::Running,
    ));
}

/// Registering a mock for one function changes nothing for any other
/// function.
pub proof fn law_other_functions_unaffected<M>(
    store: Map<MockId, Slot<M>>,
    id: MockId,
    other: MockId,
    mock: M,
)
    requires
        id != other,
    ensures
        call_started(registered(store, id, mock), other).1 == call_started(store, other).1,
        registered(store, id, mock).contains_key(other) == store.contains_key(other),
{
}

/// A function for which no mock was ever registered runs normally: nothing
/// is handed out and the store stays as it is.
pub proof fn law_unmocked_function_runs_normally<M>(store: Map<MockId, Slot<M>>, id: MockId)
    requires
        !store.contains_key(id),
    ensures
        call_started(store, id) == (store, Option::<M>::None),
{
}

/// An empty store (a fresh thread's) mocks nothing: mocks do not leak from
/// one store into another.
pub proof fn law_empty_store_mocks_nothing<M>(id: MockId)
    ensures
        call_started(Map::<MockId, Slot<M>>::empty(), id) == (
            Map::<MockId, Slot<M>>::empty(),
            Option::<M>::None,
        ),
{
}

/// While a function's mock runs, a call of that same function (from inside
/// the mock) does not run the mock again: it runs the real function.
pub proof fn law_running_mock_is_not_reentered<M>(store: Map<MockId, Slot<M>>, id: MockId)
    requires
        call_started(store, id).1 is Some,
    ensures
        call_started(call_started(store, id).0, id) == (call_started(store, id).0, Option::<M>::None),
{
}

/// A call that runs a mock and finishes leaves the store as if the mock, in
/// the state the call left it in, had been registered again: the mock keeps
/// the state it changed, and the function stays mocked.
pub proof fn law_finished_call_keeps_mock_state<M>(
    store: Map<MockId, Slot<M>>,
    id: MockId,
    after_call: M,
)
    requires
        call_started(store, id).1 is Some,
    ensures
        call_finished(call_started(store, id).0, id, after_call) == registered(
            store,
            id,
            after_call,
        ),
{
    assert(call_started(store, id).0.insert(id, Slot::Idle(after_call)) =~= store.insert(
        id,
        Slot::Idle(after_call),
    ));
}

/// A call that runs a mock and gives it back unchanged leaves the store
/// exactly as it found it.
pub proof fn law_call_round_trip<M>(store: Map<MockId, Slot<M>>, id: MockId)
    requires
        call_started(store, id).1 is Some,
    ensures
        call_finished(call_started(store, id).0, id, call_started(store, id).1->Some_0) == store,
{
    let mock = call_started(store, id).1->Some_0;
    assert(call_started(store, id).0.insert(id, Slot::Idle(mock)) =~= store);
}

/// A mock registered for a function while that function's mock runs (by the
/// running mock itself, say) replaces it: when the call finishes the new mock
/// stays registered and the old one is dropped.
pub proof fn law_mock_registered_during_call_replaces_running_one<M>(
    store: Map<MockId, Slot<M>>,
    id: MockId,
    new_mock: M,
    old_mock: M,
)
    requires
        call_started(store, id).1 is Some,
    ensures
        call_finished(registered(call_started(store, id).0, id, new_mock), id, old_mock)
            == registered(store, id, new_mock),
        call_started(registered(call_started(store, id).0, id, new_mock), id).1 == Some(new_mock),
{
    assert(registered(call_started(store, id).0, id, new_mock) =~= registered(store, id, new_mock));
}

/// Registering twice for the same function keeps only the second mock.
pub proof fn law_last_registration_wins<M>(store: Map<MockId, Slot<M>>, id: MockId, first: M, second: M)
    ensures
        registered(registered(store, id, first), id, second) == registered(store, id, second),
{
    assert(registered(registered(store, id, first), id, second) =~= registered(store, id, second));
}

} // verus!

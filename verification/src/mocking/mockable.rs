use crate::mocking::mock_id::{get_mock_id, MockId};
use crate::mocking::store::{registered, MockStore};
use vstd::prelude::*;

verus! {

/// What a mock decides for one call of the function it stands in for.
pub enum MockResult<I, O> {
    /// Run the real function, with these (possibly changed) arguments.
    Continue(I),
    /// Skip the real function and return this value.
    Return(O),
}

/// A mock packed for `Mockable::mock_extra_safe`.
pub struct MockContainer<M> {
    pub mock: M,
}

/// Setting up mocks for a function.
///
/// The trait is implemented for all functions (of up to three arguments), so
/// its methods can be called on any function. They register the mock in the
/// given store under the function's identity (`get_mock_id`) and return that
/// identity; only functions whose bodies consult the store (see the injector)
/// are affected by it.
pub trait Mockable<I> {
    /// What the function returns.
    type Output;

    /// Registers `mock` for this function, replacing any earlier mock.
    fn mock_raw<M>(&self, store: &mut MockStore<M>, mock: M) -> (id: MockId)
        ensures
            final(store)@ == registered(old(store)@, id, mock),
    {
        let id = get_mock_id(self);
        store.register(id, mock);
        id
    }

    /// Registers `mock` for this function, replacing any earlier mock; the
    /// mock may hold no borrowed data.
    fn mock_safe<M: 'static>(&self, store: &mut MockStore<M>, mock: M) -> (id: MockId)
        ensures
            final(store)@ == registered(old(store)@, id, mock),
    {
        self.mock_raw(store, mock)
    }

    /// Registers the mock held by `mock` for this function, replacing any
    /// earlier mock.
    fn mock_extra_safe<M>(&self, store: &mut MockStore<M>, mock: MockContainer<M>) -> (id: MockId)
        ensures
            final(store)@ == registered(old(store)@, id, mock.mock),
    {
        let id = get_mock_id(self);
        store.register(id, mock.mock);
        id
    }
}

impl<O, F: Fn() -> O> Mockable<()> for F {
    type Output = O;
}

impl<I1, O, F: Fn(I1) -> O> Mockable<(I1,)> for F {
    type Output = O;
}

impl<I1, I2, O, F: Fn(I1, I2) -> O> Mockable<(I1, I2)> for F {
    type Output = O;
}

impl<I1, I2, I3, O, F: Fn(I1, I2, I3) -> O> Mockable<(I1, I2, I3)> for F {
    type Output = O;
}

} // verus!

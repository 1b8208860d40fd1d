use std::any::Any;
use std::any::TypeId;
use vstd::prelude::*;

verus! {

/// `std::any::TypeId`, carried through the library as an opaque value.
#[verifier::external_type_specification]
#[verifier::external_body]
pub struct ExTypeId(TypeId);

/// Identifies what a mock stands in for: the type of the mocked function.
#[derive(Clone, Copy)]
pub struct MockId {
    type_id: TypeId,
}

impl MockId {
    /// Whether `self` and `other` identify the same mocked function.
    pub fn same_as(&self, other: &MockId) -> (r: bool)
        ensures
            r == (*self == *other),
    {
        type_ids_equal(&self.type_id, &other.type_id)
    }
}

/// `<TypeId as PartialEq>::eq`. Its documentation makes two `TypeId`s equal
/// exactly when they were taken of the same type, so the result is claimed to
/// be the equality of the two values.
#[verifier::external_body]
fn type_ids_equal(a: &TypeId, b: &TypeId) -> (r: bool)
    ensures
        r == (*a == *b),
{
    *a == *b
}

/// `<_ as Any>::type_id` of a closure defined inside this generic function:
/// the closure's type differs for each `T`, and unlike `TypeId::of::<T>` it
/// needs no `'static` bound on `T`. Nothing is claimed of the result, which
/// depends on the type `T` only.
#[verifier::external_body]
fn marker_type_id<T>() -> TypeId {
    (|| ()).type_id()
}

/// The identity under which mocks of the function `_target` (usually a
/// reference to a function item) are registered and looked up.
pub fn get_mock_id<T>(_target: T) -> MockId {
    MockId { type_id: marker_type_id::<T>() }
}

} // verus!

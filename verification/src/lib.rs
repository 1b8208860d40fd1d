//! Function mocking: a registry of mocks keyed by the mocked function's type,
//! the decisions that a mocked function's header takes when it is called, and
//! the rewriting of function items so that they consult that registry.

pub mod mocking;
pub mod injector;

//! Rewriting function items so that each call first consults the mock
//! registry: the item is read into a model, the model is rewritten, and the
//! result is printed back.

pub mod header;
pub mod inject;
pub mod laws;
pub mod model;
pub mod source;
pub mod syntax;

pub use source::inject_mocks;

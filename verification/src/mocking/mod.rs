//! Registering mocks and deciding, call by call, whether a mock runs.

pub mod laws;
pub mod mock_id;
pub mod mockable;
pub mod store;

pub use mock_id::{get_mock_id, MockId};
pub use mockable::{MockContainer, MockResult, Mockable};
pub use store::{MockStore, Slot};

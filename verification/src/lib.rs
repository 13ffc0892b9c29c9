//! An in-memory collection of titled records behind an HTTP-style
//! request router.
//!
//! The crate is organised bottom-up: [`record`] defines the data entity
//! and its validation rule, [`store`] the ordered in-memory collection,
//! [`codec`] the JSON boundary, and [`router`] the dispatch from
//! method and path to the store operations. [`laws`] states and proves
//! the properties the pieces guarantee together.

pub mod codec;
pub mod laws;
pub mod record;
pub mod router;
pub mod store;

pub use record::Record;
pub use record::RecordModel;
pub use router::handle_request;
pub use router::Response;
pub use store::Store;

//! An asynchronous bridge that lets a single-threaded, event-loop-driven
//! caller perform blocking configuration-store operations (typed reads and
//! writes under a hierarchical key namespace) without stalling its own
//! thread.
//!
//! The verified core covers the value codec, the synchronous input
//! validation, the worker-thread state machine, the dispatch queue ordering,
//! and the resolve-once completion discipline.  The actual OS store calls,
//! the OS thread, and the host runtime's completion primitive live outside
//! the library and are driven through plain values.

pub mod accessor;
pub mod codec;
pub mod laws;
pub mod outcome;
pub mod root;
pub mod service;
pub mod store;
pub mod value;
pub mod worker;

pub use codec::Payload;
pub use codec::TypeTag;
pub use outcome::ReadOutcome;
pub use outcome::RequestError;
pub use outcome::Response;
pub use root::AccessMode;
pub use root::StoreRoot;
pub use service::InputError;
pub use service::Service;
pub use store::ModelStore;
pub use value::Value;

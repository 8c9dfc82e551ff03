//! A host library for running untrusted scripts inside an isolated
//! WebAssembly guest, under hard memory and wall-clock ceilings.
//!
//! The library owns the verified core of the execution lifecycle: resource
//! limit configuration and validation, the per-call host/guest data-exchange
//! protocol, the cooperative time-limit bookkeeping, and the structured
//! classification of failures. The unverified plumbing that drives a wasm
//! runtime against these decisions lives outside the library.

pub mod engine;
pub mod errors;
pub mod memory;
pub mod region;
pub mod session;
pub mod slot;
pub mod time;
pub mod transcode;

pub use engine::QuickJS;
pub use engine::QuickJSBuilder;
pub use errors::ConfigurationError;
pub use errors::ExecutionError;
pub use errors::ResourceLimitError;
pub use region::GuestRegion;
pub use session::RunStatus;
pub use session::Session;
pub use slot::Outcome;
pub use slot::ResultSlot;
pub use time::EpochBudget;
pub use time::TimeLimit;

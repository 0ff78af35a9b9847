//! A firmware integration stub for a microcontroller host.
//!
//! The host firmware links two entry points and calls them by symbol. Each of
//! them asks a few things of the platform (run the runtime-patch installer,
//! install the logging sink, emit one informational record) and hands a fixed
//! status back. This crate holds what the entry points decide: which platform
//! calls are made, in which order, with which text, and what the host gets in
//! return. It also holds a model of the platform as the stub sees it, against
//! which the behaviour over whole sequences of calls is stated and proved.
//!
//! - [`entry`]: the entry points, their platform calls and their status.
//! - [`model`]: the two stages of the platform and the records that reach the
//!   sink, as a transition system, with its laws.
//! - [`harness`]: an executable host that carries the calls out on the model
//!   and records what reaches the sink.

pub mod entry;
pub mod harness;
pub mod model;

pub use entry::{hello_from_rust, invoke, rust_main, Entry, Outcome, Step, STATUS};
pub use harness::Harness;
pub use model::{Stage, State};

//! A readiness-based event notification core: readiness sets, tokens,
//! triggering modes, a registry of live registrations keyed by native
//! handle, and the per-event dispatch decisions of an event loop.

pub mod markers;
pub mod poll_opt;
pub mod reactor;
pub mod ready;
pub mod registry;
pub mod token;
pub mod transfer;

pub use markers::{assert_send, assert_sync, tcp_sockets_are_send_and_sync};
pub use poll_opt::PollOpt;
pub use reactor::Reactor;
pub use ready::Ready;
pub use registry::{Registration, Registry, RegistryError};
pub use token::Token;
pub use transfer::{Attempt, Step, Transfer};

//! An in-process broadcast hub.
//!
//! Endpoints register with a [`handler::BroadcastHandler`] and get a send
//! handle and a receive handle. A value sent by one endpoint is forwarded, by
//! the handler's dispatch cycle, to every other registered endpoint, and to
//! the sender itself where it asked for that.
//!
//! The queues are `std::sync::mpsc` channels and the registry sits behind a
//! `std::sync::RwLock`; [`sync`] lists what is taken on trust about them.
//! [`registry`] holds the dispatch algorithm, verified against the
//! mathematical description in [`model`]; [`laws`] proves what follows from
//! that description.

pub mod handler;
pub mod laws;
pub mod model;
pub mod receiver;
pub mod registry;
pub mod sender;
pub mod sync;

//! A presence-aware chat relay: envelopes, their JSON wire form, the registry
//! of who is in which room, the broadcast bus, and the per-connection session
//! life cycle.

pub mod envelope;
pub mod index;
pub mod registry;
pub mod bus;
pub mod json;
pub mod codec;
pub mod relay;
pub mod session;
pub mod config;

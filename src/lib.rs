//! Event-sourced bank accounts: state is derived by replaying an ordered
//! log of immutable events, commands are validated against that state to
//! produce new events, and a repository moves events between an aggregate
//! and an append-only, identity-partitioned event store.

pub mod errors;
pub mod events;
pub mod aggregate;
pub mod commands;
pub mod event_store;
pub mod repository;

//! Mirrors one git repository to another when a webhook fires.
//!
//! The crate holds the decisions of the mirror service: which task
//! configurations are accepted, how trigger events are queued and
//! dispatched so that a task never has two syncs in flight, and which git
//! operation a sync performs next. Performing those operations (network,
//! disk, threads, HTTP) is left to the program around the library.

pub mod config_parser;
pub mod background;
pub mod web;

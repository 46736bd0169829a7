//! Ingestion of finalized slots, as decisions without I/O.
//!
//! `cursor` resolves a notification against the next expected slot; `block`
//! and `unit` plan and carry out the work of one slot, signature by
//! signature; `fetcher` is the ingestion loop as a state machine, with the
//! request configuration of `config`; `server` decides what a read request
//! asks of the store.

pub mod block;
pub mod config;
pub mod cursor;
pub mod fetcher;
pub mod server;
pub mod unit;

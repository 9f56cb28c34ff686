//! A small service core that keeps an authoritative in-memory list of IP
//! records and coordinates it with an external key-value mirror.
//!
//! The crate is organised in layers:
//! - [`ip`]: the record type and query options;
//! - [`record_store`]: the in-memory, insertion-ordered record store;
//! - [`reconcile`]: the create/delete rules that keep the record store and
//!   the external mirror coherent;
//! - [`query`]: pagination over the record store;
//! - [`export`]: plain-text snapshots, including the mirror cross-reference
//!   with remaining time-to-live;
//! - [`response`]: the response envelopes handed back to callers.
//!
//! All network traffic (HTTP, the mirror's wire protocol) is left to the
//! surrounding application; the functions here take and return plain values
//! and are verified.

pub mod export;
pub mod ip;
pub mod query;
pub mod reconcile;
pub mod record_store;
pub mod response;

//! Execution core of a peer-to-peer application runtime.
//!
//! A node keeps a local hash chain of entries, indexes relationships between
//! addresses in an entity-attribute-value store, and moves through its work by
//! reducing actions into a state that readers only ever see as a snapshot.
//! Everything here is plain data in and plain data out: threads, channels and
//! the network live with the caller.

pub mod error;
pub mod hash;
pub mod json;
pub mod pattern;
pub mod model;
pub mod keyed;
pub mod content;
pub mod eav;
pub mod constraint;
pub mod entry;
pub mod chain_header;
pub mod validation;
pub mod agent;
pub mod dna;
pub mod nucleus;
pub mod build_validation_package;
pub mod action;
pub mod network;
pub mod state;
pub mod dht;
pub mod shared;
pub mod hold_link;
pub mod config;

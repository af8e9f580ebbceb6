//! Translation of a declarative workload descriptor into the nested
//! block-structured job document consumed by a cluster scheduler.
//!
//! The crate owns two data models: the typed configuration read from the
//! descriptor ([`config`]) and the block tree that the downstream document
//! renderer serialises ([`block`]).  The translation engine ([`translate`])
//! maps the former onto the latter, performing schema defaulting, enum
//! normalisation and value-type-aware attribute encoding.

pub mod block;
pub mod config;
pub mod laws;
pub mod translate;

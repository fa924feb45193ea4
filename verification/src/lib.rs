//! Deterministic hash reports for blockchain genesis configurations.
//!
//! A chain specification declares the resources (system cells and dependency
//! groups) that are embedded in a genesis block. This crate derives a
//! [`report::SpecHashes`] report for such a specification: the content hash of
//! the specification itself, the genesis block hash, the coinbase transaction
//! hash, and per-cell content hashes, each declared resource matched by
//! position against the materialized genesis outputs. Reports for one or more
//! specifications are then framed as TOML or JSON documents.

pub mod batch;
pub mod chain;
pub mod derive;
pub mod hashes;
pub mod render;
pub mod report;

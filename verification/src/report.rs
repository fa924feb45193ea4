//! The report data model: per-cell entries, the report itself, and the
//! diagnostics and errors a derivation can produce.

use vstd::prelude::*;

use crate::hashes::Hash256;

verus! {

/// One genesis-embedded system cell, matched to a coinbase output.
#[derive(Clone, Debug, PartialEq, Eq)]
pub struct SystemCell {
    /// Resource identifier for this cell's content, as the specification
    /// declared it.
    pub path: String,
    /// Hash of the coinbase transaction that carries this cell.
    pub tx_hash: Hash256,
    /// 1-based position of this cell's output in the coinbase output list;
    /// position 0 is reserved and never a system cell.
    pub index: usize,
    /// Content hash of the output's raw data payload.
    pub data_hash: Hash256,
    /// Content hash of the output's type script, absent when the cell
    /// carries none.
    pub type_hash: Option<Hash256>,
}

/// One genesis dependency group.
#[derive(Clone, Debug, PartialEq, Eq)]
pub struct DepGroupCell {
    /// Resource identifiers of the cells this group references, verbatim
    /// from the specification.
    pub included_cells: Vec<String>,
    /// Hash of the genesis dependency-group transaction.
    pub tx_hash: Hash256,
    /// 0-based position of this group among the declared groups.
    pub index: usize,
}

/// The hash report derived from one chain specification.
#[derive(Clone, Debug, PartialEq, Eq)]
pub struct SpecHashes {
    /// Content hash of the specification's normalized representation.
    pub spec_hash: Hash256,
    /// Hash of the genesis block header.
    pub genesis: Hash256,
    /// Hash of the genesis coinbase transaction.
    pub cellbase: Hash256,
    /// System cells in declaration order.
    pub system_cells: Vec<SystemCell>,
    /// Dependency groups in declaration order.
    pub dep_groups: Vec<DepGroupCell>,
}

/// The data extracted from one coinbase output: what a system-cell entry
/// reports about it.
#[derive(Clone, Copy, Debug, PartialEq, Eq)]
pub struct OutputHashes {
    /// Content hash of the output's raw data payload.
    pub data_hash: Hash256,
    /// Content hash of the output's type script, if it has one.
    pub type_hash: Option<Hash256>,
}

/// A disagreement between the genesis hash a specification declares and the
/// hash computed from the materialized genesis block. Advisory only: it is
/// reported as a diagnostic and never aborts a derivation.
#[derive(Clone, Copy, Debug, PartialEq, Eq)]
pub struct GenesisMismatch {
    /// The hash the specification declared.
    pub declared: Hash256,
    /// The hash computed from the built genesis block.
    pub actual: Hash256,
}

/// The outcome of deriving one specification: its name, its report, and the
/// advisory genesis-hash diagnostic, if any.
#[derive(Clone, Debug, PartialEq, Eq)]
pub struct Derivation {
    /// The specification's name, unique per run; it keys the report in the
    /// encoded output.
    pub name: String,
    /// The derived report.
    pub hashes: SpecHashes,
    /// Present when the specification declared a genesis hash that differs
    /// from the computed one.
    pub mismatch: Option<GenesisMismatch>,
}

/// A terminal failure while deriving the report for one specification.
#[derive(Clone, Debug, PartialEq, Eq)]
pub enum SpecError {
    /// The consensus object could not be built from the specification; the
    /// payload is the builder's message.
    Config(String),
    /// The built genesis block lacks the coinbase or the dependency-group
    /// transaction, which a well-formed genesis always contains.
    MalformedGenesis,
}

} // verus!

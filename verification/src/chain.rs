//! The boundary to the chain-specification and consensus crates: declared
//! outside types, one trusted wrapper per outside call, and the verified
//! derivation pipeline built on them.
//!
//! A `ChainSpec` and the `Consensus` built from it are opaque here: the
//! wrappers extract plain values (names, resource paths, hashes, output
//! payloads), and everything derived from those values is verified against
//! the contracts in [`crate::derive`] and [`crate::batch`].

use vstd::prelude::*;

use ckb_chain_spec::consensus::Consensus;
use ckb_chain_spec::ChainSpec;
use ckb_types::packed::Bytes;
use ckb_types::packed::CellOutput;
use ckb_types::packed::Script;
use ckb_types::prelude::Unpack;

use crate::derive::{derive_with_check, lemma_matching_report_well_formed, report_well_formed};
use crate::batch::{collect_reports, collected};
use crate::hashes::Hash256;
use crate::report::{Derivation, OutputHashes, SpecError};

verus! {

#[verifier::external_type_specification]
#[verifier::external_body]
pub struct ExChainSpec(ChainSpec);

#[verifier::external_type_specification]
#[verifier::external_body]
pub struct ExConsensus(Consensus);

#[verifier::external_type_specification]
#[verifier::external_body]
pub struct ExBlockView(ckb_types::core::BlockView);

#[verifier::external_type_specification]
#[verifier::external_body]
pub struct ExTransactionView(ckb_types::core::TransactionView);

#[verifier::external_type_specification]
#[verifier::external_body]
pub struct ExCellOutput(CellOutput);

#[verifier::external_type_specification]
#[verifier::external_body]
pub struct ExScript(Script);

#[verifier::external_type_specification]
#[verifier::external_body]
pub struct ExBytes(Bytes);

/// The content hash of a cell data payload: a digest of the bytes alone, the
/// same on every machine and in every run.
pub uninterp spec fn data_hash_of(data: Seq<u8>) -> Seq<u8>;

/// Relies on the `name` field of `ckb_chain_spec::ChainSpec`.
#[verifier::external_body]
fn spec_name(spec: &ChainSpec) -> String {
    spec.name.clone()
}

/// Relies on `Option::take` applied to the declared genesis hash field
/// `genesis.hash` of `ckb_chain_spec::ChainSpec`: the declaration is removed
/// so that it cannot influence consensus building, and handed back.
#[verifier::external_body]
fn take_declared_genesis_hash(spec: &mut ChainSpec) -> Option<Hash256> {
    spec.genesis.hash.take().map(|h| Hash256 { bytes: h.0 })
}

/// Relies on the `genesis.system_cells` field of
/// `ckb_chain_spec::ChainSpec` and the `Display` form of
/// `ckb_resource::Resource`: one identifier per declared system cell, in
/// declaration order.
#[verifier::external_body]
fn system_cell_paths(spec: &ChainSpec) -> Vec<String> {
    spec.genesis.system_cells.iter().map(|cell| cell.file.to_string()).collect()
}

/// Relies on the `genesis.dep_groups` field of `ckb_chain_spec::ChainSpec`
/// and the `Display` form of `ckb_resource::Resource`: one identifier list
/// per declared dependency group, in declaration order.
#[verifier::external_body]
fn dep_group_paths(spec: &ChainSpec) -> Vec<Vec<String>> {
    spec.genesis.dep_groups
        .iter()
        .map(|group| group.files.iter().map(|file| file.to_string()).collect())
        .collect()
}

/// Relies on the `hash` field of `ckb_chain_spec::ChainSpec`: the content
/// hash of the specification recorded when it was loaded.
#[verifier::external_body]
fn declared_spec_hash(spec: &ChainSpec) -> Hash256 {
    let h: ckb_types::H256 = spec.hash.unpack();
    Hash256 { bytes: h.0 }
}

/// Relies on `ckb_chain_spec::ChainSpec::build_consensus`; a failure is
/// handed back as the builder's message.
#[verifier::external_body]
fn build_consensus(spec: &ChainSpec) -> Result<Consensus, String> {
    spec.build_consensus().map_err(|e| e.to_string())
}

/// Relies on `Consensus::genesis_hash` of `ckb_chain_spec`: the hash of the
/// built genesis block.
#[verifier::external_body]
fn genesis_hash(consensus: &Consensus) -> Hash256 {
    let h: ckb_types::H256 = consensus.genesis_hash().unpack();
    Hash256 { bytes: h.0 }
}

/// Relies on `Consensus::genesis_block` of `ckb_chain_spec`.
#[verifier::external_body]
fn genesis_block(consensus: &Consensus) -> &ckb_types::core::BlockView {
    consensus.genesis_block()
}

/// Relies on `ckb_types::core::BlockView::transactions`: the block's
/// transactions in order.
#[verifier::external_body]
fn block_transactions(block: &ckb_types::core::BlockView) -> Vec<ckb_types::core::TransactionView> {
    block.transactions()
}

/// Relies on `ckb_types::core::TransactionView::hash`.
#[verifier::external_body]
fn transaction_hash(tx: &ckb_types::core::TransactionView) -> Hash256 {
    let h: ckb_types::H256 = tx.hash().unpack();
    Hash256 { bytes: h.0 }
}

/// Relies on `ckb_types::core::TransactionView::outputs`: the transaction's
/// outputs in order.
#[verifier::external_body]
fn transaction_outputs(tx: &ckb_types::core::TransactionView) -> Vec<CellOutput> {
    tx.outputs().into_iter().collect()
}

/// Relies on `ckb_types::core::TransactionView::outputs_data`: one data
/// payload per output, in order.
#[verifier::external_body]
fn transaction_outputs_data(tx: &ckb_types::core::TransactionView) -> Vec<Bytes> {
    tx.outputs_data().into_iter().collect()
}

/// Relies on `ckb_types::packed::Bytes::raw_data`: the payload bytes.
#[verifier::external_body]
fn bytes_raw_data(data: &Bytes) -> Vec<u8> {
    data.raw_data().to_vec()
}

/// Relies on `type_().to_opt()` of `ckb_types::packed::CellOutput`: the
/// output's type script, if it has one.
#[verifier::external_body]
fn output_type_script(output: &CellOutput) -> Option<Script> {
    output.type_().to_opt()
}

/// Relies on `ckb_types::packed::Script::calc_script_hash`: the content hash
/// of the serialized script.
#[verifier::external_body]
fn script_content_hash(script: &Script) -> Hash256 {
    let h: ckb_types::H256 = script.calc_script_hash().unpack();
    Hash256 { bytes: h.0 }
}

/// Relies on `ckb_types::packed::CellOutput::calc_data_hash`: a digest of
/// the data bytes alone — the zero hash for empty data, a blake2b-256 digest
/// otherwise.
#[verifier::external_body]
fn calc_data_hash(data: &Vec<u8>) -> (r: Hash256)
    ensures
        r@ == data_hash_of(data@),
{
    let h: ckb_types::H256 = CellOutput::calc_data_hash(data.as_slice()).unpack();
    Hash256 { bytes: h.0 }
}

/// Content hash of a cell data payload, as the `data_hash` field of a
/// system-cell entry reports it.
pub fn data_hash(data: &Vec<u8>) -> (r: Hash256)
    ensures
        r@ == data_hash_of(data@),
{
    calc_data_hash(data)
}

/// Checks that a built genesis block carries its two mandatory
/// transactions: the coinbase at position 0 and the dependency-group
/// transaction at position 1. A block without both violates the consensus
/// builder's own guarantee, and that is the one failure this check reports.
fn require_genesis_transactions(txs: &Vec<ckb_types::core::TransactionView>) -> (r: Result<
    (),
    SpecError,
>)
    ensures
        r is Ok <==> txs@.len() >= 2,
        r is Err ==> r->Err_0 == SpecError::MalformedGenesis,
{
    if txs.len() < 2 {
        Err(SpecError::MalformedGenesis)
    } else {
        Ok(())
    }
}

/// Derives the hash report for one specification.
///
/// The declared genesis hash, if any, is removed before the consensus object
/// is built, so it cannot influence construction; a disagreement with the
/// computed hash surfaces only as the diagnostic in the outcome. A failure
/// to build consensus is terminal for this specification. A genesis block
/// without both the coinbase and the dependency-group transaction is a
/// violation of the consensus builder's own guarantee and is also terminal.
pub fn derive_spec_hashes(spec: ChainSpec) -> (r: Result<Derivation, SpecError>)
    ensures
        r is Ok ==> report_well_formed(r->Ok_0.hashes),
{
    let mut spec = spec;
    let name = spec_name(&spec);
    let declared = take_declared_genesis_hash(&mut spec);
    let paths = system_cell_paths(&spec);
    let groups = dep_group_paths(&spec);
    let spec_hash = declared_spec_hash(&spec);
    let consensus = match build_consensus(&spec) {
        Ok(c) => c,
        Err(message) => {
            return Err(SpecError::Config(message));
        },
    };
    let computed_genesis = genesis_hash(&consensus);
    let txs = block_transactions(genesis_block(&consensus));
    match require_genesis_transactions(&txs) {
        Ok(()) => {},
        Err(e) => {
            return Err(e);
        },
    }
    let cellbase_hash = transaction_hash(&txs[0]);
    let dep_group_tx_hash = transaction_hash(&txs[1]);
    let outputs = transaction_outputs(&txs[0]);
    let datas = transaction_outputs_data(&txs[0]);

    // Pair each output with its data payload; a transaction is expected to
    // carry one payload per output, but nothing forces the two lists to
    // agree here, so pairing stops at the shorter side.
    let paired: usize = if outputs.len() <= datas.len() {
        outputs.len()
    } else {
        datas.len()
    };
    let mut output_hashes: Vec<OutputHashes> = Vec::new();
    let mut i: usize = 0;
    while i < paired
        invariant
            i <= paired,
            paired <= outputs@.len(),
            paired <= datas@.len(),
        decreases paired - i,
    {
        let payload = bytes_raw_data(&datas[i]);
        let payload_hash = data_hash(&payload);
        let type_hash = match output_type_script(&outputs[i]) {
            Some(script) => Some(script_content_hash(&script)),
            None => None,
        };
        output_hashes.push(OutputHashes { data_hash: payload_hash, type_hash });
        i += 1;
    }

    let ghost paths_view = paths@;
    let ghost outputs_view = output_hashes@;
    let ghost groups_view = groups@;
    let (hashes, mismatch) = derive_with_check(
        declared,
        spec_hash,
        computed_genesis,
        cellbase_hash,
        dep_group_tx_hash,
        paths,
        output_hashes,
        groups,
    );
    proof {
        lemma_matching_report_well_formed(
            spec_hash,
            computed_genesis,
            cellbase_hash,
            dep_group_tx_hash,
            paths_view,
            outputs_view,
            groups_view,
            hashes,
        );
    }
    Ok(Derivation { name, hashes, mismatch })
}

/// Derives the reports for a batch of specifications, in order, aborting at
/// the first failure: either every specification yields a report, or none
/// does.
pub fn derive_all_spec_hashes(specs: Vec<ChainSpec>) -> (r: Result<Vec<Derivation>, SpecError>)
    ensures
        specs@.len() == 0 ==> r is Ok,
        r is Ok ==> r->Ok_0@.len() == specs@.len(),
        r is Ok ==> forall|i: int|
            0 <= i < r->Ok_0@.len() ==> report_well_formed((#[trigger] r->Ok_0@[i]).hashes),
{
    let mut rest = specs;
    let mut results: Vec<Result<Derivation, SpecError>> = Vec::new();
    while rest.len() > 0
        invariant
            results@.len() + rest@.len() == specs@.len(),
            forall|k: int|
                0 <= k < results@.len() ==> ((#[trigger] results@[k]) is Ok
                    ==> report_well_formed(results@[k]->Ok_0.hashes)),
        decreases rest@.len(),
    {
        let spec = rest.remove(0);
        results.push(derive_spec_hashes(spec));
    }
    let ghost results_view = results@;
    let r = collect_reports(results);
    proof {
        if r is Ok {
            assert(collected(results_view, r));
            assert forall|i: int|
                0 <= i < r->Ok_0@.len() implies report_well_formed(
                (#[trigger] r->Ok_0@[i]).hashes,
            ) by {
                assert(results_view[i] is Ok);
                assert(r->Ok_0@[i] == results_view[i]->Ok_0);
            }
        }
    }
    r
}

} // verus!

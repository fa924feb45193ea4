use ckb_chain_spec::ChainSpec;
use ckb_resource::Resource;
use ckb_types::prelude::Unpack;

use spec_hashes::chain::{data_hash, derive_all_spec_hashes, derive_spec_hashes};
use spec_hashes::hashes::Hash256;
use spec_hashes::report::SpecError;

fn load_bundled(name: &str) -> ChainSpec {
    ChainSpec::load_from(&Resource::bundled(format!("specs/{name}.toml")))
        .expect("bundled spec loads")
}

#[test]
fn data_hash_agrees_with_chain_encoding() {
    let payload = vec![1u8, 2, 3, 4];
    let expected: ckb_types::H256 =
        ckb_types::packed::CellOutput::calc_data_hash(&payload).unpack();
    assert_eq!(data_hash(&payload).bytes, expected.0);

    let empty: Vec<u8> = Vec::new();
    let expected_empty: ckb_types::H256 =
        ckb_types::packed::CellOutput::calc_data_hash(&[]).unpack();
    assert_eq!(data_hash(&empty).bytes, expected_empty.0);
}

#[test]
fn mainnet_derivation_is_deterministic() {
    let r1 = derive_spec_hashes(load_bundled("mainnet")).expect("derivation succeeds");
    let r2 = derive_spec_hashes(load_bundled("mainnet")).expect("derivation succeeds");
    assert_eq!(r1, r2);
}

#[test]
fn mainnet_report_matches_declared_lists() {
    let spec = load_bundled("mainnet");
    let declared_cells = spec.genesis.system_cells.len();
    let declared_groups = spec.genesis.dep_groups.len();

    let derivation = derive_spec_hashes(spec).expect("derivation succeeds");
    assert_eq!(derivation.name, "ckb");
    // The bundled spec declares no genesis hash, so no diagnostic is due.
    assert!(derivation.mismatch.is_none());

    let report = &derivation.hashes;
    assert_eq!(report.system_cells.len(), declared_cells);
    assert_eq!(report.dep_groups.len(), declared_groups);
    for (i, cell) in report.system_cells.iter().enumerate() {
        assert_eq!(cell.index, i + 1);
        assert_eq!(cell.tx_hash, report.cellbase);
    }
    for (i, group) in report.dep_groups.iter().enumerate() {
        assert_eq!(group.index, i);
    }
}

#[test]
fn mainnet_cell_hashes_match_genesis_outputs() {
    let derivation = derive_spec_hashes(load_bundled("mainnet")).expect("derivation succeeds");
    let report = &derivation.hashes;

    let mut spec = load_bundled("mainnet");
    spec.genesis.hash = None;
    let consensus = spec.build_consensus().expect("consensus builds");
    let block = consensus.genesis_block();
    let txs = block.transactions();
    let cellbase = &txs[0];
    let outputs: Vec<_> = cellbase.outputs().into_iter().collect();
    let datas: Vec<_> = cellbase.outputs_data().into_iter().collect();

    let cellbase_hash: ckb_types::H256 = cellbase.hash().unpack();
    assert_eq!(report.cellbase.bytes, cellbase_hash.0);
    let dep_tx_hash: ckb_types::H256 = txs[1].hash().unpack();

    assert!(report.system_cells.len() >= 1);
    let mut with_type = 0usize;
    let mut without_type = 0usize;
    for (i, cell) in report.system_cells.iter().enumerate() {
        let data = datas[i + 1].raw_data();
        let expected_data: ckb_types::H256 =
            ckb_types::packed::CellOutput::calc_data_hash(&data).unpack();
        assert_eq!(cell.data_hash.bytes, expected_data.0);

        let expected_type: Option<ckb_types::H256> = outputs[i + 1]
            .type_()
            .to_opt()
            .map(|script| script.calc_script_hash().unpack());
        match (&cell.type_hash, expected_type) {
            (Some(actual), Some(expected)) => {
                assert_eq!(actual.bytes, expected.0);
                with_type += 1;
            }
            (None, None) => {
                without_type += 1;
            }
            (actual, expected) => {
                panic!("type hash presence differs at {i}: {actual:?} vs {expected:?}")
            }
        }
    }
    // The bundled spec exercises both sides of the optional type script.
    assert!(with_type >= 1);
    assert!(without_type >= 1);

    for group in &report.dep_groups {
        assert_eq!(group.tx_hash.bytes, dep_tx_hash.0);
    }
}

#[test]
fn mismatched_declared_hash_is_non_fatal() {
    let correct = derive_spec_hashes(load_bundled("dev")).expect("derivation succeeds").hashes.genesis;

    let mut spec = load_bundled("dev");
    spec.genesis.hash = Some(ckb_types::H256([0u8; 32]));
    let derivation = derive_spec_hashes(spec).expect("a mismatch does not abort derivation");
    let mismatch = derivation.mismatch.expect("a diagnostic is due");
    assert_eq!(mismatch.declared, Hash256::new([0u8; 32]));
    assert_eq!(mismatch.actual, correct);
    // The report carries the computed hash, not the declared one.
    assert_eq!(derivation.hashes.genesis, correct);
}

#[test]
fn broken_params_yield_config_error() {
    let mut spec = load_bundled("dev");
    spec.params.genesis_epoch_length = Some(0);
    match derive_spec_hashes(spec) {
        Err(SpecError::Config(_)) => {}
        other => panic!("expected a configuration error, got {other:?}"),
    }
}

#[test]
fn empty_batch_succeeds_with_no_reports() {
    let reports = derive_all_spec_hashes(Vec::new()).expect("an empty batch cannot fail");
    assert!(reports.is_empty());
}

#[test]
fn batch_with_one_broken_spec_yields_no_reports() {
    let good_first = load_bundled("dev");
    let mut broken = load_bundled("dev");
    broken.params.genesis_epoch_length = Some(0);
    let good_last = load_bundled("dev");
    match derive_all_spec_hashes(vec![good_first, broken, good_last]) {
        Err(SpecError::Config(_)) => {}
        other => panic!("expected the batch to fail fast, got {other:?}"),
    }
}

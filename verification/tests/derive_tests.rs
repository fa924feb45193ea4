use spec_hashes::derive::{check_declared_genesis, derive_report, derive_with_check};
use spec_hashes::hashes::Hash256;
use spec_hashes::report::OutputHashes;

fn h(b: u8) -> Hash256 {
    Hash256::new([b; 32])
}

fn out(data: u8, type_hash: Option<u8>) -> OutputHashes {
    OutputHashes { data_hash: h(data), type_hash: type_hash.map(h) }
}

#[test]
fn scenario_two_cells_one_dep_group() {
    // "test" declares 2 system cells and 1 dependency group with 3 included
    // files; the coinbase has 4 outputs (1 reserved + 3 available).
    let paths = vec!["cell_a".to_string(), "cell_b".to_string()];
    let outputs = vec![out(0, None), out(11, Some(21)), out(12, None), out(13, Some(23))];
    let groups = vec![vec!["f1".to_string(), "f2".to_string(), "f3".to_string()]];
    let r = derive_report(h(1), h(2), h(3), h(4), paths, outputs, groups);

    assert_eq!(r.spec_hash, h(1));
    assert_eq!(r.genesis, h(2));
    assert_eq!(r.cellbase, h(3));

    assert_eq!(r.system_cells.len(), 2);
    assert_eq!(r.system_cells[0].index, 1);
    assert_eq!(r.system_cells[1].index, 2);
    assert_eq!(r.system_cells[0].path, "cell_a");
    assert_eq!(r.system_cells[1].path, "cell_b");
    assert_eq!(r.system_cells[0].tx_hash, h(3));
    assert_eq!(r.system_cells[1].tx_hash, h(3));
    assert_eq!(r.system_cells[0].data_hash, h(11));
    assert_eq!(r.system_cells[1].data_hash, h(12));

    assert_eq!(r.dep_groups.len(), 1);
    assert_eq!(r.dep_groups[0].index, 0);
    assert_eq!(r.dep_groups[0].tx_hash, h(4));
    assert_eq!(
        r.dep_groups[0].included_cells,
        vec!["f1".to_string(), "f2".to_string(), "f3".to_string()]
    );
}

#[test]
fn surplus_declarations_are_dropped() {
    // 5 declared resources but only 3 outputs (2 available): pairing stops
    // at the shorter side.
    let paths = (0..5).map(|i| format!("cell_{i}")).collect::<Vec<_>>();
    let outputs = vec![out(0, None), out(1, None), out(2, None)];
    let r = derive_report(h(1), h(2), h(3), h(4), paths, outputs, Vec::new());
    assert_eq!(r.system_cells.len(), 2);
    assert_eq!(r.system_cells[0].index, 1);
    assert_eq!(r.system_cells[1].index, 2);
    assert_eq!(r.system_cells[0].path, "cell_0");
    assert_eq!(r.system_cells[1].path, "cell_1");
    assert!(r.dep_groups.is_empty());
}

#[test]
fn surplus_outputs_are_not_reported() {
    let paths = vec!["only".to_string()];
    let outputs = vec![out(0, None), out(1, None), out(2, None), out(3, None)];
    let r = derive_report(h(1), h(2), h(3), h(4), paths, outputs, Vec::new());
    assert_eq!(r.system_cells.len(), 1);
    assert_eq!(r.system_cells[0].data_hash, h(1));
}

#[test]
fn no_available_outputs_no_cells() {
    let paths = vec!["a".to_string(), "b".to_string()];
    let r1 = derive_report(h(1), h(2), h(3), h(4), paths.clone(), Vec::new(), Vec::new());
    assert!(r1.system_cells.is_empty());
    // With a single output only the reserved position 0 exists.
    let r2 = derive_report(h(1), h(2), h(3), h(4), paths, vec![out(9, None)], Vec::new());
    assert!(r2.system_cells.is_empty());
}

#[test]
fn type_hash_presence_mirrors_output() {
    let paths = vec!["a".to_string(), "b".to_string()];
    let outputs = vec![out(0, None), out(1, None), out(2, Some(42))];
    let r = derive_report(h(1), h(2), h(3), h(4), paths, outputs, Vec::new());
    assert_eq!(r.system_cells[0].type_hash, None);
    assert_eq!(r.system_cells[1].type_hash, Some(h(42)));
}

#[test]
fn dep_groups_recorded_verbatim() {
    let groups = vec![
        vec!["x".to_string()],
        vec!["y".to_string(), "z".to_string()],
    ];
    let r = derive_report(h(1), h(2), h(3), h(4), Vec::new(), Vec::new(), groups.clone());
    assert_eq!(r.dep_groups.len(), 2);
    for (i, g) in r.dep_groups.iter().enumerate() {
        assert_eq!(g.index, i);
        assert_eq!(g.tx_hash, h(4));
        assert_eq!(g.included_cells, groups[i]);
    }
}

#[test]
fn deriving_twice_is_identical() {
    let paths = vec!["a".to_string(), "b".to_string()];
    let outputs = vec![out(0, None), out(1, Some(5)), out(2, None)];
    let groups = vec![vec!["g".to_string()]];
    let r1 = derive_report(h(1), h(2), h(3), h(4), paths.clone(), outputs.clone(), groups.clone());
    let r2 = derive_report(h(1), h(2), h(3), h(4), paths, outputs, groups);
    assert_eq!(r1, r2);
}

#[test]
fn mismatch_is_detected_and_non_fatal() {
    let declared = Some(h(9));
    let (report, mismatch) = derive_with_check(
        declared,
        h(1),
        h(2),
        h(3),
        h(4),
        vec!["a".to_string()],
        vec![out(0, None), out(1, None)],
        Vec::new(),
    );
    // The report is still produced and carries the computed genesis hash.
    assert_eq!(report.genesis, h(2));
    assert_eq!(report.system_cells.len(), 1);
    let m = mismatch.expect("declared hash differs, so a diagnostic is due");
    assert_eq!(m.declared, h(9));
    assert_eq!(m.actual, h(2));
}

#[test]
fn matching_declared_hash_yields_no_diagnostic() {
    assert_eq!(check_declared_genesis(&Some(h(2)), &h(2)), None);
    assert_eq!(check_declared_genesis(&None, &h(2)), None);
    let m = check_declared_genesis(&Some(h(1)), &h(2)).expect("differs");
    assert_eq!(m.declared, h(1));
    assert_eq!(m.actual, h(2));
}

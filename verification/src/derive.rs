//! The core derivation: matching a specification's declared resource lists
//! against the outputs of its materialized genesis block, with the
//! index-alignment and mismatch-detection rules stated as contracts.

use vstd::prelude::*;

use crate::hashes::Hash256;
use crate::report::{DepGroupCell, GenesisMismatch, OutputHashes, SpecHashes, SystemCell};

verus! {

/// How many system-cell entries a report has: the declared resources are
/// paired in order with the coinbase outputs from position 1 on, and pairing
/// stops at the shorter side.
pub open spec fn system_cell_count(declared: nat, outputs: nat) -> nat {
    let available: nat = if outputs == 0 {
        0
    } else {
        (outputs - 1) as nat
    };
    if declared <= available {
        declared
    } else {
        available
    }
}

/// What one system-cell entry must say about the declared path and the
/// coinbase output it was paired with; `i` is its 0-based pair position.
pub open spec fn system_cell_matches(
    cell: SystemCell,
    path: String,
    cellbase: Hash256,
    output: OutputHashes,
    i: int,
) -> bool {
    &&& cell.path@ == path@
    &&& cell.tx_hash@ == cellbase@
    &&& cell.index == i + 1
    &&& cell.data_hash@ == output.data_hash@
    &&& (cell.type_hash is Some <==> output.type_hash is Some)
    &&& (cell.type_hash is Some ==> cell.type_hash.unwrap()@ == output.type_hash.unwrap()@)
}

/// What one dependency-group entry must say about the i-th declared group:
/// its file list verbatim, the dependency-group transaction's hash, and its
/// declaration position.
pub open spec fn dep_group_matches(
    group: DepGroupCell,
    files: Vec<String>,
    dep_group_tx: Hash256,
    i: int,
) -> bool {
    &&& group.included_cells@.len() == files@.len()
    &&& (forall|j: int|
        0 <= j < files@.len() ==> group.included_cells@[j]@ == files@[j]@)
    &&& group.tx_hash@ == dep_group_tx@
    &&& group.index == i
}

/// The full relation between a report and the values it was derived from.
pub open spec fn report_matches(
    spec_hash: Hash256,
    genesis: Hash256,
    cellbase: Hash256,
    dep_group_tx: Hash256,
    paths: Seq<String>,
    outputs: Seq<OutputHashes>,
    groups: Seq<Vec<String>>,
    r: SpecHashes,
) -> bool {
    &&& r.spec_hash@ == spec_hash@
    &&& r.genesis@ == genesis@
    &&& r.cellbase@ == cellbase@
    &&& r.system_cells@.len() == system_cell_count(paths.len(), outputs.len())
    &&& (forall|i: int|
        0 <= i < r.system_cells@.len() ==> system_cell_matches(
            #[trigger] r.system_cells@[i],
            paths[i],
            cellbase,
            outputs[i + 1],
            i,
        ))
    &&& r.dep_groups@.len() == groups.len()
    &&& (forall|i: int|
        0 <= i < groups.len() ==> dep_group_matches(
            #[trigger] r.dep_groups@[i],
            groups[i],
            dep_group_tx,
            i,
        ))
}

/// Content-level equality of two reports: every field and every entry agrees
/// byte for byte.
pub open spec fn reports_equal(a: SpecHashes, b: SpecHashes) -> bool {
    &&& a.spec_hash@ == b.spec_hash@
    &&& a.genesis@ == b.genesis@
    &&& a.cellbase@ == b.cellbase@
    &&& a.system_cells@.len() == b.system_cells@.len()
    &&& (forall|i: int|
        0 <= i < a.system_cells@.len() ==> {
            let x = #[trigger] a.system_cells@[i];
            let y = b.system_cells@[i];
            &&& x.path@ == y.path@
            &&& x.tx_hash@ == y.tx_hash@
            &&& x.index == y.index
            &&& x.data_hash@ == y.data_hash@
            &&& (x.type_hash is Some <==> y.type_hash is Some)
            &&& (x.type_hash is Some ==> x.type_hash.unwrap()@ == y.type_hash.unwrap()@)
        })
    &&& a.dep_groups@.len() == b.dep_groups@.len()
    &&& (forall|i: int|
        0 <= i < a.dep_groups@.len() ==> {
            let x = #[trigger] a.dep_groups@[i];
            let y = b.dep_groups@[i];
            &&& x.included_cells@.len() == y.included_cells@.len()
            &&& (forall|j: int|
                0 <= j < x.included_cells@.len() ==> x.included_cells@[j]@
                    == y.included_cells@[j]@)
            &&& x.tx_hash@ == y.tx_hash@
            &&& x.index == y.index
        })
}

/// Determinism: two reports derived from the same values are identical in
/// content. Deriving from the same specification twice therefore yields the
/// same report.
pub proof fn lemma_derive_deterministic(
    spec_hash: Hash256,
    genesis: Hash256,
    cellbase: Hash256,
    dep_group_tx: Hash256,
    paths: Seq<String>,
    outputs: Seq<OutputHashes>,
    groups: Seq<Vec<String>>,
    r1: SpecHashes,
    r2: SpecHashes,
)
    requires
        report_matches(spec_hash, genesis, cellbase, dep_group_tx, paths, outputs, groups, r1),
        report_matches(spec_hash, genesis, cellbase, dep_group_tx, paths, outputs, groups, r2),
    ensures
        reports_equal(r1, r2),
{
    assert forall|i: int| 0 <= i < r1.system_cells@.len() implies {
        let x = #[trigger] r1.system_cells@[i];
        let y = r2.system_cells@[i];
        &&& x.path@ == y.path@
        &&& x.tx_hash@ == y.tx_hash@
        &&& x.index == y.index
        &&& x.data_hash@ == y.data_hash@
        &&& (x.type_hash is Some <==> y.type_hash is Some)
        &&& (x.type_hash is Some ==> x.type_hash.unwrap()@ == y.type_hash.unwrap()@)
    } by {
        assert(system_cell_matches(r1.system_cells@[i], paths[i], cellbase, outputs[i + 1], i));
        assert(system_cell_matches(r2.system_cells@[i], paths[i], cellbase, outputs[i + 1], i));
    }
    assert forall|i: int| 0 <= i < r1.dep_groups@.len() implies {
        let x = #[trigger] r1.dep_groups@[i];
        let y = r2.dep_groups@[i];
        &&& x.included_cells@.len() == y.included_cells@.len()
        &&& (forall|j: int|
            0 <= j < x.included_cells@.len() ==> x.included_cells@[j]@ == y.included_cells@[j]@)
        &&& x.tx_hash@ == y.tx_hash@
        &&& x.index == y.index
    } by {
        assert(dep_group_matches(r1.dep_groups@[i], groups[i], dep_group_tx, i));
        assert(dep_group_matches(r2.dep_groups@[i], groups[i], dep_group_tx, i));
        let x = r1.dep_groups@[i];
        let y = r2.dep_groups@[i];
        assert forall|j: int|
            0 <= j < x.included_cells@.len() implies x.included_cells@[j]@
            == y.included_cells@[j]@ by {
            assert(x.included_cells@[j]@ == groups[i]@[j]@);
            assert(y.included_cells@[j]@ == groups[i]@[j]@);
        }
    }
}

/// The structural invariant every derived report satisfies: system-cell
/// indices run 1, 2, ... in order and share the coinbase hash, and
/// dependency-group indices run 0, 1, ... in order and share one
/// transaction hash.
pub open spec fn report_well_formed(r: SpecHashes) -> bool {
    &&& (forall|i: int|
        0 <= i < r.system_cells@.len() ==> (#[trigger] r.system_cells@[i]).index == i + 1
            && r.system_cells@[i].tx_hash@ == r.cellbase@)
    &&& (forall|i: int|
        0 <= i < r.dep_groups@.len() ==> (#[trigger] r.dep_groups@[i]).index == i
            && r.dep_groups@[i].tx_hash@ == r.dep_groups@[0].tx_hash@)
}

/// A report that matches its derivation inputs satisfies the structural
/// invariant.
pub proof fn lemma_matching_report_well_formed(
    spec_hash: Hash256,
    genesis: Hash256,
    cellbase: Hash256,
    dep_group_tx: Hash256,
    paths: Seq<String>,
    outputs: Seq<OutputHashes>,
    groups: Seq<Vec<String>>,
    r: SpecHashes,
)
    requires
        report_matches(spec_hash, genesis, cellbase, dep_group_tx, paths, outputs, groups, r),
    ensures
        report_well_formed(r),
{
    assert forall|i: int|
        0 <= i < r.system_cells@.len() implies (#[trigger] r.system_cells@[i]).index == i + 1
        && r.system_cells@[i].tx_hash@ == r.cellbase@ by {
        assert(system_cell_matches(r.system_cells@[i], paths[i], cellbase, outputs[i + 1], i));
    }
    assert forall|i: int|
        0 <= i < r.dep_groups@.len() implies (#[trigger] r.dep_groups@[i]).index == i
        && r.dep_groups@[i].tx_hash@ == r.dep_groups@[0].tx_hash@ by {
        assert(dep_group_matches(r.dep_groups@[i], groups[i], dep_group_tx, i));
        assert(dep_group_matches(r.dep_groups@[0], groups[0], dep_group_tx, 0));
    }
}

/// Copies a list of resource identifiers.
fn clone_string_vec(v: &Vec<String>) -> (r: Vec<String>)
    ensures
        r@.len() == v@.len(),
        forall|j: int| 0 <= j < v@.len() ==> r@[j]@ == v@[j]@,
{
    let mut r: Vec<String> = Vec::new();
    let mut i: usize = 0;
    while i < v.len()
        invariant
            i <= v@.len(),
            r@.len() == i,
            forall|j: int| 0 <= j < i ==> r@[j]@ == v@[j]@,
        decreases v@.len() - i,
    {
        r.push(v[i].clone());
        i += 1;
    }
    r
}

/// Derives the report for one specification from the values its genesis
/// block materialized to.
///
/// The declared system-cell paths are paired in order with the coinbase
/// outputs starting at output 1 (output 0 is reserved); pairing stops at the
/// shorter side, so surplus declarations or surplus outputs are dropped
/// without error. Dependency groups are recorded verbatim in declaration
/// order against the dependency-group transaction.
pub fn derive_report(
    spec_hash: Hash256,
    genesis: Hash256,
    cellbase: Hash256,
    dep_group_tx: Hash256,
    paths: Vec<String>,
    outputs: Vec<OutputHashes>,
    groups: Vec<Vec<String>>,
) -> (r: SpecHashes)
    ensures
        report_matches(spec_hash, genesis, cellbase, dep_group_tx, paths@, outputs@, groups@, r),
{
    let available: usize = if outputs.len() == 0 {
        0
    } else {
        outputs.len() - 1
    };
    let count: usize = if paths.len() <= available {
        paths.len()
    } else {
        available
    };

    let mut system_cells: Vec<SystemCell> = Vec::new();
    let mut i: usize = 0;
    while i < count
        invariant
            i <= count,
            count == system_cell_count(paths@.len(), outputs@.len()),
            count <= paths@.len(),
            outputs@.len() >= 1 ==> count <= outputs@.len() - 1,
            count >= 1 ==> outputs@.len() >= 1,
            system_cells@.len() == i,
            forall|j: int|
                0 <= j < i ==> system_cell_matches(
                    #[trigger] system_cells@[j],
                    paths@[j],
                    cellbase,
                    outputs@[j + 1],
                    j,
                ),
        decreases count - i,
    {
        let out = outputs[i + 1];
        system_cells.push(
            SystemCell {
                path: paths[i].clone(),
                tx_hash: cellbase,
                index: i + 1,
                data_hash: out.data_hash,
                type_hash: out.type_hash,
            },
        );
        i += 1;
    }

    let mut dep_groups: Vec<DepGroupCell> = Vec::new();
    let mut g: usize = 0;
    while g < groups.len()
        invariant
            g <= groups@.len(),
            dep_groups@.len() == g,
            forall|j: int|
                0 <= j < g ==> dep_group_matches(
                    #[trigger] dep_groups@[j],
                    groups@[j],
                    dep_group_tx,
                    j,
                ),
        decreases groups@.len() - g,
    {
        dep_groups.push(
            DepGroupCell {
                included_cells: clone_string_vec(&groups[g]),
                tx_hash: dep_group_tx,
                index: g,
            },
        );
        g += 1;
    }

    SpecHashes { spec_hash, genesis, cellbase, system_cells, dep_groups }
}

/// Compares a declared genesis hash, if one was given, against the computed
/// one. A disagreement yields a diagnostic value, never a failure.
pub fn check_declared_genesis(declared: &Option<Hash256>, actual: &Hash256) -> (r: Option<
    GenesisMismatch,
>)
    ensures
        r is Some <==> (declared is Some && declared.unwrap()@ != actual@),
        r is Some ==> r.unwrap().declared@ == declared.unwrap()@ && r.unwrap().actual@ == actual@,
{
    match declared {
        Some(h) => {
            if h.eq_hash(actual) {
                None
            } else {
                Some(GenesisMismatch { declared: *h, actual: *actual })
            }
        },
        None => None,
    }
}

/// Derives the report and the advisory genesis-hash check in one step: the
/// report always carries the computed genesis hash, whatever the
/// specification declared, and a mismatch surfaces only as a diagnostic.
pub fn derive_with_check(
    declared: Option<Hash256>,
    spec_hash: Hash256,
    genesis: Hash256,
    cellbase: Hash256,
    dep_group_tx: Hash256,
    paths: Vec<String>,
    outputs: Vec<OutputHashes>,
    groups: Vec<Vec<String>>,
) -> (r: (SpecHashes, Option<GenesisMismatch>))
    ensures
        report_matches(
            spec_hash,
            genesis,
            cellbase,
            dep_group_tx,
            paths@,
            outputs@,
            groups@,
            r.0,
        ),
        r.1 is Some <==> (declared is Some && declared.unwrap()@ != genesis@),
        r.1 is Some ==> r.1.unwrap().declared@ == declared.unwrap()@ && r.1.unwrap().actual@
            == genesis@,
{
    let mismatch = check_declared_genesis(&declared, &genesis);
    let report = derive_report(spec_hash, genesis, cellbase, dep_group_tx, paths, outputs, groups);
    (report, mismatch)
}

} // verus!

//! Fail-fast collection of per-specification outcomes: a batch yields either
//! every report or no report at all.

use vstd::prelude::*;

use crate::report::{Derivation, SpecError};

verus! {

/// The relation between per-specification outcomes and the collected batch
/// result: success exactly when every outcome succeeded, in which case every
/// report is kept in order; otherwise the first failure, with every outcome
/// before it successful.
pub open spec fn collected(
    results: Seq<Result<Derivation, SpecError>>,
    r: Result<Vec<Derivation>, SpecError>,
) -> bool {
    &&& (r is Ok <==> (forall|i: int| 0 <= i < results.len() ==> (#[trigger] results[i]) is Ok))
    &&& (r is Ok ==> r->Ok_0@.len() == results.len() && (forall|i: int|
        0 <= i < results.len() ==> r->Ok_0@[i] == (#[trigger] results[i])->Ok_0))
    &&& (r is Err ==> (exists|i: int|
        0 <= i < results.len() && (#[trigger] results[i]) is Err && r->Err_0 == results[i]->Err_0
            && (forall|j: int| 0 <= j < i ==> (#[trigger] results[j]) is Ok)))
}

/// Collects per-specification outcomes into one batch result, aborting at
/// the first failure: no partial batch is ever produced.
pub fn collect_reports(results: Vec<Result<Derivation, SpecError>>) -> (r: Result<
    Vec<Derivation>,
    SpecError,
>)
    ensures
        collected(results@, r),
{
    let mut rest = results;
    let mut out: Vec<Derivation> = Vec::new();
    while rest.len() > 0
        invariant
            out@.len() + rest@.len() == results@.len(),
            rest@ == results@.subrange(out@.len() as int, results@.len() as int),
            forall|k: int|
                0 <= k < out@.len() ==> (#[trigger] results@[k]) is Ok && out@[k] == results@[k]->Ok_0,
        decreases rest@.len(),
    {
        let ghost i = out@.len() as int;
        let item = rest.remove(0);
        proof {
            assert(item == results@[i]);
            assert(rest@ =~= results@.subrange(i + 1, results@.len() as int));
        }
        match item {
            Ok(d) => {
                out.push(d);
            },
            Err(e) => {
                proof {
                    assert(results@[i] is Err && results@[i]->Err_0 == e);
                    assert(forall|j: int| 0 <= j < i ==> (#[trigger] results@[j]) is Ok);
                    if forall|k: int| 0 <= k < results@.len() ==> (#[trigger] results@[k]) is Ok {
                        assert(results@[i] is Ok);
                        assert(false);
                    }
                    assert(exists|k: int|
                        0 <= k < results@.len() && (#[trigger] results@[k]) is Err && e == results@[k]->Err_0
                            && (forall|j: int| 0 <= j < k ==> (#[trigger] results@[j]) is Ok));
                }
                return Err(e);
            },
        }
    }
    proof {
        assert(forall|k: int| 0 <= k < results@.len() ==> (#[trigger] results@[k]) is Ok);
    }
    Ok(out)
}

/// Fail-fast: if any outcome in the batch is a failure, the collected result
/// is a failure, so no report is emitted for any specification in the batch.
pub proof fn lemma_batch_fail_fast(
    results: Seq<Result<Derivation, SpecError>>,
    r: Result<Vec<Derivation>, SpecError>,
    j: int,
)
    requires
        collected(results, r),
        0 <= j < results.len(),
        results[j] is Err,
    ensures
        r is Err,
{
    if r is Ok {
        assert(results[j] is Ok);
    }
}

} // verus!

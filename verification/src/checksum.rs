//! Checksum builder: deterministic digests over ordered collections.
//!
//! Two independent checksums are kept per block: one over the ordered deploy
//! identities (to verify approval-signature completeness) and one over the
//! ordered execution results (to verify result integrity). Each checksum is a
//! pure function of the ordered item sequence — it commits to content, order
//! and length — and both are written into the checksum registry at a reserved
//! global-state key after all deploys have committed.

use vstd::prelude::*;

use crate::digest::{combine, spec_combine, Digest};
use crate::effects::{effect_digest, spec_fold_effects};
use crate::types::{result_model, DeployId, ExecutionResult, ResultModel};

verus! {

/// Seed of every collection checksum.
pub const CHECKSUM_SEED: u64 = 0x9e3779b97f4a7c15;

/// Left fold of the items' digests into a running digest.
pub open spec fn spec_fold_digests(acc: u64, items: Seq<Digest>) -> u64
    decreases items.len(),
{
    if items.len() == 0 {
        acc
    } else {
        spec_combine(spec_fold_digests(acc, items.drop_last()), items.last().value)
    }
}

/// Checksum of an ordered collection of item digests: commits to the length,
/// the items and their order.
pub open spec fn spec_checksum(items: Seq<Digest>) -> Digest {
    Digest { value: spec_fold_digests(spec_combine(CHECKSUM_SEED, items.len() as u64), items) }
}

/// Computes the checksum of an ordered collection of item digests.
pub fn compute_checksum(items: &Vec<Digest>) -> (r: Digest)
    ensures
        r == spec_checksum(items@),
{
    let mut acc: u64 = combine(CHECKSUM_SEED, items.len() as u64);
    let mut i: usize = 0;
    while i < items.len()
        invariant
            i <= items@.len(),
            acc == spec_fold_digests(spec_combine(CHECKSUM_SEED, items@.len() as u64), items@.take(i as int)),
        decreases items@.len() - i,
    {
        acc = combine(acc, items[i].value);
        proof {
            assert(items@.take(i + 1 as int).drop_last() =~= items@.take(i as int));
            assert(items@.take(i + 1 as int).last() == items@[i as int]);
        }
        i = i + 1;
    }
    proof {
        assert(items@.take(items@.len() as int) =~= items@);
    }
    Digest { value: acc }
}

/// Digest of one deploy identity.
pub open spec fn spec_id_digest(id: DeployId) -> Digest {
    Digest { value: spec_combine(id.deploy_hash.value, id.approvals_hash.value) }
}

/// Checksum over the ordered deploy identities of a block.
pub open spec fn spec_approvals_checksum(ids: Seq<DeployId>) -> Digest {
    spec_checksum(ids.map_values(|id: DeployId| spec_id_digest(id)))
}

/// Computes the checksum over the ordered deploy identities of a block.
pub fn compute_approvals_checksum(deploy_ids: &Vec<DeployId>) -> (r: Digest)
    ensures
        r == spec_approvals_checksum(deploy_ids@),
{
    let mut digests: Vec<Digest> = Vec::new();
    let mut i: usize = 0;
    while i < deploy_ids.len()
        invariant
            i <= deploy_ids@.len(),
            digests@ =~= deploy_ids@.take(i as int).map_values(|id: DeployId| spec_id_digest(id)),
        decreases deploy_ids@.len() - i,
    {
        let id = deploy_ids[i];
        digests.push(Digest { value: combine(id.deploy_hash.value, id.approvals_hash.value) });
        proof {
            assert(deploy_ids@.take(i + 1 as int).map_values(|id: DeployId| spec_id_digest(id))
                =~= deploy_ids@.take(i as int).map_values(|id: DeployId| spec_id_digest(id)).push(
                spec_id_digest(deploy_ids@[i as int])));
        }
        i = i + 1;
    }
    proof {
        assert(deploy_ids@.take(deploy_ids@.len() as int) =~= deploy_ids@);
    }
    compute_checksum(&digests)
}

/// Digest of one execution result: commits to the outcome flag, the cost and
/// the full effect journal in order.
pub open spec fn spec_result_digest(r: ResultModel) -> Digest {
    spec_fold_effects(
        Digest { value: spec_combine(if r.success { 1 } else { 0 }, r.cost) },
        r.journal,
    )
}

/// Digest of one execution result.
pub fn result_digest(r: &ExecutionResult) -> (out: Digest)
    ensures
        out == spec_result_digest(result_model(*r)),
{
    let flag: u64 = if r.success { 1 } else { 0 };
    let mut acc: Digest = Digest { value: combine(flag, r.cost) };
    let mut i: usize = 0;
    while i < r.journal.len()
        invariant
            i <= r.journal@.len(),
            acc == spec_fold_effects(
                Digest { value: spec_combine(if r.success { 1u64 } else { 0u64 }, r.cost) },
                r.journal@.take(i as int),
            ),
        decreases r.journal@.len() - i,
    {
        acc = Digest { value: combine(acc.value, effect_digest(&r.journal[i])) };
        proof {
            assert(r.journal@.take(i + 1 as int).drop_last() =~= r.journal@.take(i as int));
            assert(r.journal@.take(i + 1 as int).last() == r.journal@[i as int]);
        }
        i = i + 1;
    }
    proof {
        assert(r.journal@.take(r.journal@.len() as int) =~= r.journal@);
    }
    acc
}

/// Checksum over the ordered execution results of a block.
pub open spec fn spec_execution_results_checksum(rs: Seq<ResultModel>) -> Digest {
    spec_checksum(rs.map_values(|r: ResultModel| spec_result_digest(r)))
}

/// Computes the checksum over the ordered execution results of a block.
pub fn compute_execution_results_checksum(execution_results: &Vec<ExecutionResult>) -> (r: Digest)
    ensures
        r == spec_execution_results_checksum(
            execution_results@.map_values(|x: ExecutionResult| result_model(x)),
        ),
{
    let ghost models = execution_results@.map_values(|x: ExecutionResult| result_model(x));
    let mut digests: Vec<Digest> = Vec::new();
    let mut i: usize = 0;
    while i < execution_results.len()
        invariant
            i <= execution_results@.len(),
            models == execution_results@.map_values(|x: ExecutionResult| result_model(x)),
            digests@ =~= models.take(i as int).map_values(|r: ResultModel| spec_result_digest(r)),
        decreases execution_results@.len() - i,
    {
        digests.push(result_digest(&execution_results[i]));
        proof {
            assert(models.take(i + 1 as int).map_values(|r: ResultModel| spec_result_digest(r))
                =~= models.take(i as int).map_values(|r: ResultModel| spec_result_digest(r)).push(
                spec_result_digest(models[i as int])));
        }
        i = i + 1;
    }
    proof {
        assert(models.take(models.len() as int) =~= models);
    }
    compute_checksum(&digests)
}

} // verus!

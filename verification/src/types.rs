//! Data model of the pipeline: deploys, execution results, era reports,
//! finalized blocks, the assembled block, and the pipeline's errors.

use vstd::prelude::*;

use crate::digest::{combine, spec_combine, Digest};
use crate::effects::{Effect, StoredValue};

verus! {

/// Header of a deploy: the signer's account and the deploy's timestamp.
#[derive(PartialEq, Eq, Structural, Clone, Copy, Debug)]
pub struct DeployHeader {
    pub account: u64,
    pub timestamp_millis: u64,
}

/// A finalized, immutable deploy, identified by its content hash.
#[derive(PartialEq, Eq, Structural, Clone, Copy, Debug)]
pub struct Deploy {
    pub hash: Digest,
    pub approvals_hash: Digest,
    pub header: DeployHeader,
}

/// Identity of a deploy: its content hash and its approval-signature hash.
#[derive(PartialEq, Eq, Structural, Clone, Copy, Debug)]
pub struct DeployId {
    pub deploy_hash: Digest,
    pub approvals_hash: Digest,
}

impl Deploy {
    /// The deploy's identity.
    pub fn id(&self) -> (r: DeployId)
        ensures
            r == self.spec_id(),
    {
        DeployId { deploy_hash: self.hash, approvals_hash: self.approvals_hash }
    }

    /// The deploy's identity.
    pub open spec fn spec_id(self) -> DeployId {
        DeployId { deploy_hash: self.hash, approvals_hash: self.approvals_hash }
    }
}

/// Outcome of executing one deploy. Success and failure both carry the
/// journal of state effects (a failed deploy still pays its fees) and a cost;
/// only the interpretation differs.
#[derive(Debug)]
pub struct ExecutionResult {
    pub success: bool,
    pub cost: u64,
    pub journal: Vec<Effect>,
}

/// Mathematical model of an execution result.
#[verifier::ext_equal]
pub ghost struct ResultModel {
    pub success: bool,
    pub cost: u64,
    pub journal: Seq<Effect>,
}

/// Model of an execution result.
pub open spec fn result_model(r: ExecutionResult) -> ResultModel {
    ResultModel { success: r.success, cost: r.cost, journal: r.journal@ }
}

/// Copies one execution result.
pub fn copy_result(r: &ExecutionResult) -> (out: ExecutionResult)
    ensures
        result_model(out) == result_model(*r),
{
    ExecutionResult {
        success: r.success,
        cost: r.cost,
        journal: crate::effects::copy_effects(&r.journal),
    }
}

/// Copies a list of execution results.
pub fn copy_results(v: &Vec<ExecutionResult>) -> (out: Vec<ExecutionResult>)
    ensures
        out@.len() == v@.len(),
        forall|i: int| 0 <= i < v@.len() ==> result_model(#[trigger] out@[i]) == result_model(v@[i]),
{
    let mut out: Vec<ExecutionResult> = Vec::new();
    let mut i: usize = 0;
    while i < v.len()
        invariant
            i <= v@.len(),
            out@.len() == i,
            forall|k: int|
                0 <= k < i ==> result_model(#[trigger] out@[k]) == result_model(v@[k]),
        decreases v@.len() - i,
    {
        out.push(copy_result(&v[i]));
        i = i + 1;
    }
    out
}

/// A reward to one validator, passed through the era step unchanged.
#[derive(PartialEq, Eq, Structural, Clone, Copy, Debug)]
pub struct RewardEntry {
    pub validator: u64,
    pub amount: u64,
}

/// Report that closes an era: who equivocated, who is rewarded how much, and
/// who went inactive. Present only on era-ending blocks.
#[derive(Debug)]
pub struct EraReport {
    pub equivocators: Vec<u64>,
    pub rewards: Vec<RewardEntry>,
    pub inactive_validators: Vec<u64>,
}

/// Starting point for a new block's execution, produced from the parent.
#[derive(PartialEq, Eq, Structural, Clone, Copy, Debug)]
pub struct ExecutionPreState {
    pub pre_state_root_hash: Digest,
    pub parent_hash: Digest,
    pub parent_seed: Digest,
    pub next_block_height: u64,
}

/// An ordered, already-agreed-upon block body, before execution.
#[derive(Debug)]
pub struct FinalizedBlock {
    pub height: u64,
    pub timestamp_millis: u64,
    pub era_id: u64,
    pub proposer: u64,
    pub era_report: Option<EraReport>,
}

/// The weight of one validator in an era.
#[derive(PartialEq, Eq, Structural, Clone, Copy, Debug)]
pub struct WeightEntry {
    pub validator: u64,
    pub weight: u64,
}

/// The validator weights of one era.
#[derive(Debug)]
pub struct EraValidators {
    pub era_id: u64,
    pub weights: Vec<WeightEntry>,
}

/// Inclusion witness for the checksum registry entry: the committed root, the
/// reserved key, and the value found under it in the committed state.
#[derive(PartialEq, Eq, Structural, Clone, Copy, Debug)]
pub struct RegistryProof {
    pub state_root: Digest,
    pub key: u64,
    pub value: StoredValue,
}

/// Per-deploy approval hashes plus the registry inclusion witness, produced
/// alongside the block for downstream verification.
#[derive(Debug)]
pub struct ApprovalsHashes {
    pub block_hash: Digest,
    pub approvals_hashes: Vec<Digest>,
    pub checksum_registry_proof: RegistryProof,
}

/// Mathematical model of an era report.
#[verifier::ext_equal]
pub ghost struct EraReportModel {
    pub equivocators: Seq<u64>,
    pub rewards: Seq<RewardEntry>,
    pub inactive_validators: Seq<u64>,
}

/// Model of an era report.
pub open spec fn era_report_model(r: EraReport) -> EraReportModel {
    EraReportModel {
        equivocators: r.equivocators@,
        rewards: r.rewards@,
        inactive_validators: r.inactive_validators@,
    }
}

/// Model of an optional era report.
pub open spec fn opt_era_report_model(o: Option<EraReport>) -> Option<EraReportModel> {
    match o {
        Option::None => None,
        Option::Some(r) => Some(era_report_model(r)),
    }
}

/// Model of an optional weight list.
pub open spec fn opt_weights_model(o: Option<Vec<WeightEntry>>) -> Option<Seq<WeightEntry>> {
    match o {
        Option::None => None,
        Option::Some(w) => Some(w@),
    }
}

/// Hash of a block: commits to the chain position, the committed root and the
/// block's scalar body fields.
pub open spec fn spec_block_hash(
    parent_hash: Digest,
    parent_seed: Digest,
    state_root_hash: Digest,
    height: u64,
    timestamp_millis: u64,
    era_id: u64,
    proposer: u64,
    protocol_version: u64,
) -> Digest {
    Digest {
        value: spec_combine(
            spec_combine(
                spec_combine(
                    spec_combine(parent_hash.value, parent_seed.value),
                    spec_combine(state_root_hash.value, height),
                ),
                spec_combine(timestamp_millis, era_id),
            ),
            spec_combine(proposer, protocol_version),
        ),
    }
}

/// The fully assembled, hash-chained block record. Created exactly once, at
/// the end of the pipeline, from already-computed fields.
#[derive(Debug)]
pub struct Block {
    pub hash: Digest,
    pub parent_hash: Digest,
    pub parent_seed: Digest,
    pub state_root_hash: Digest,
    pub height: u64,
    pub timestamp_millis: u64,
    pub era_id: u64,
    pub proposer: u64,
    pub era_report: Option<EraReport>,
    pub next_era_validator_weights: Option<Vec<WeightEntry>>,
    pub protocol_version: u64,
}

impl Block {
    /// Assembles the block from the executed pre-state and body.
    pub fn new(
        parent_hash: Digest,
        parent_seed: Digest,
        state_root_hash: Digest,
        finalized_block: FinalizedBlock,
        next_era_validator_weights: Option<Vec<WeightEntry>>,
        protocol_version: u64,
    ) -> (r: Block)
        ensures
            r.hash == spec_block_hash(
                parent_hash,
                parent_seed,
                state_root_hash,
                finalized_block.height,
                finalized_block.timestamp_millis,
                finalized_block.era_id,
                finalized_block.proposer,
                protocol_version,
            ),
            r.parent_hash == parent_hash,
            r.parent_seed == parent_seed,
            r.state_root_hash == state_root_hash,
            r.height == finalized_block.height,
            r.timestamp_millis == finalized_block.timestamp_millis,
            r.era_id == finalized_block.era_id,
            r.proposer == finalized_block.proposer,
            opt_era_report_model(r.era_report) == opt_era_report_model(
                finalized_block.era_report,
            ),
            opt_weights_model(r.next_era_validator_weights) == opt_weights_model(
                next_era_validator_weights,
            ),
            r.protocol_version == protocol_version,
    {
        let hash = Digest {
            value: combine(
                combine(
                    combine(
                        combine(parent_hash.value, parent_seed.value),
                        combine(state_root_hash.value, finalized_block.height),
                    ),
                    combine(finalized_block.timestamp_millis, finalized_block.era_id),
                ),
                combine(finalized_block.proposer, protocol_version),
            ),
        };
        Block {
            hash,
            parent_hash,
            parent_seed,
            state_root_hash,
            height: finalized_block.height,
            timestamp_millis: finalized_block.timestamp_millis,
            era_id: finalized_block.era_id,
            proposer: finalized_block.proposer,
            era_report: finalized_block.era_report,
            next_era_validator_weights,
            protocol_version,
        }
    }
}

/// Errors of the speculative execution path.
#[derive(PartialEq, Eq, Structural, Clone, Copy, Debug)]
pub enum EngineError {
    /// The given state root identifies no committed snapshot.
    RootNotFound(Digest),
}

/// Errors of the era step.
#[derive(PartialEq, Eq, Structural, Clone, Copy, Debug)]
pub enum StepError {
    /// The engine failed to run the auction housekeeping.
    EngineFailure,
}

/// Errors of the block-execution path. Every one of them aborts the block
/// before any durable write.
#[derive(Debug)]
pub enum BlockExecutionError {
    /// The finalized block's height is not the expected next height. Carries
    /// both inputs for diagnostics.
    WrongBlockHeight {
        finalized_block: FinalizedBlock,
        execution_pre_state: ExecutionPreState,
    },
    /// The pre-state root identifies no committed snapshot.
    RootNotFound(Digest),
    /// The engine returned a result count other than one for a
    /// single-deploy request: a contract breach, fatal to the block.
    MoreThanOneExecutionResult,
    /// The era step failed on an era-ending block.
    Step(StepError),
}

} // verus!

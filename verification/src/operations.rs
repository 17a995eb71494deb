//! The block-execution orchestrator and the speculative executor.
//!
//! `execute_finalized_block` drives one block through the pipeline: height
//! gate, per-deploy execution and commit in the exact order given, checksum
//! registry write, optional era step, durable flush, proof fetch and block
//! assembly. `execute_only` runs one deploy against a committed root with no
//! overlay and no commit.

use vstd::prelude::*;

use crate::checksum::{
    compute_approvals_checksum, compute_execution_results_checksum, spec_approvals_checksum,
    spec_execution_results_checksum,
};
use crate::digest::Digest;
use crate::effects::{
    lemma_lookup_append, spec_fold_effects, spec_lookup, Effect, StoredValue,
    CHECKSUM_REGISTRY_KEY,
};
use crate::engine::{
    model_wf, spec_find_snapshot, spec_has_root, spec_script_outcomes, Engine, EngineModel,
    ExecuteRequest, ScriptModel, SnapModel,
};
use crate::era::{build_step_request, era_model, lookup_era_weights, spec_lookup_era, StepSuccess};
use crate::state::Scratch;
use crate::types::{
    copy_result, opt_era_report_model, opt_weights_model, result_model, spec_block_hash,
    ApprovalsHashes, Block, BlockExecutionError, Deploy, DeployHeader, DeployId, EraReport,
    EraValidators, ExecutionPreState, ExecutionResult, FinalizedBlock, ResultModel, StepError,
    WeightEntry,
};

verus! {

/// Account under which speculative execution runs: the system itself.
pub const SYSTEM_ACCOUNT: u64 = 0;

/// Parameters of a speculative execution: a committed root, a block time and
/// a protocol version, with no block around them.
#[derive(PartialEq, Eq, Structural, Clone, Copy, Debug)]
pub struct SpeculativeExecutionState {
    pub state_root_hash: Digest,
    pub block_time: u64,
    pub protocol_version: u64,
}

/// The era step's journal together with the upcoming eras' validator weights.
#[derive(Debug)]
pub struct StepEffectAndUpcomingEraValidators {
    pub step_execution_journal: Vec<Effect>,
    pub upcoming_era_validators: Vec<EraValidators>,
}

/// Everything one block execution returns: the assembled block, the approvals
/// hashes with the registry inclusion witness, the ordered per-deploy results
/// and the optional step outcome.
#[derive(Debug)]
pub struct BlockAndExecutionResults {
    pub block: Block,
    pub approvals_hashes: ApprovalsHashes,
    pub execution_results: Vec<(Digest, DeployHeader, ExecutionResult)>,
    pub maybe_step_effect_and_upcoming_era_validators: Option<
        StepEffectAndUpcomingEraValidators,
    >,
}

/// Model of one recorded result: the deploy's hash and header with the
/// outcome's model.
pub open spec fn triple_model(t: (Digest, DeployHeader, ExecutionResult)) -> (
    Digest,
    DeployHeader,
    ResultModel,
) {
    (t.0, t.1, result_model(t.2))
}

/// Whether the recorded results agree pointwise with their models.
pub open spec fn results_match(
    v: Seq<(Digest, DeployHeader, ExecutionResult)>,
    s: Seq<(Digest, DeployHeader, ResultModel)>,
) -> bool {
    &&& v.len() == s.len()
    &&& forall|k: int| 0 <= k < v.len() ==> #[trigger] triple_model(v[k]) == s[k]
}

/// Ghost state threaded through the deploy loop: the running root, the
/// overlay's buffered writes and the recorded results.
#[verifier::ext_equal]
pub ghost struct RunState {
    pub root: Digest,
    pub pending: Seq<Effect>,
    pub results: Seq<(Digest, DeployHeader, ResultModel)>,
}

/// The run state before any deploy has executed.
pub open spec fn spec_start(pre_state_root_hash: Digest) -> RunState {
    RunState { root: pre_state_root_hash, pending: Seq::empty(), results: Seq::empty() }
}

/// Runs the first `n` deploys in order: each one's scripted outcome count
/// must be exactly one; its journal is committed and the root threaded
/// forward. `Err` carries the index of the first cardinality violation.
#[verifier::opaque]
pub open spec fn spec_run_deploys(
    script: Seq<ScriptModel>,
    start: RunState,
    deploys: Seq<Deploy>,
    n: int,
) -> Result<RunState, int>
    decreases n,
{
    if n <= 0 {
        Ok(start)
    } else {
        match spec_run_deploys(script, start, deploys, n - 1) {
            Result::Err(i) => Err(i),
            Result::Ok(st) => {
                let outs = spec_script_outcomes(script, deploys[n - 1].hash);
                if outs.len() != 1 {
                    Err(n - 1)
                } else {
                    Ok(
                        RunState {
                            root: spec_fold_effects(st.root, outs[0].journal),
                            pending: st.pending + outs[0].journal,
                            results: st.results.push(
                                (deploys[n - 1].hash, deploys[n - 1].header, outs[0]),
                            ),
                        },
                    )
                }
            },
        }
    }
}

/// A cardinality violation ends the run: every longer prefix fails the same
/// way.
pub proof fn lemma_run_deploys_err(
    script: Seq<ScriptModel>,
    start: RunState,
    deploys: Seq<Deploy>,
    n1: int,
    n2: int,
)
    requires
        0 <= n1 <= n2,
        spec_run_deploys(script, start, deploys, n1) is Err,
    ensures
        spec_run_deploys(script, start, deploys, n2) == spec_run_deploys(
            script,
            start,
            deploys,
            n1,
        ),
    decreases n2 - n1,
{
    reveal_with_fuel(spec_run_deploys, 1);
    if n2 > n1 {
        lemma_run_deploys_err(script, start, deploys, n1, n2 - 1);
    }
}

/// One more deploy with a single scripted outcome extends a successful run.
pub proof fn lemma_run_deploys_step(
    script: Seq<ScriptModel>,
    st0: RunState,
    deploys: Seq<Deploy>,
    i: int,
    st: RunState,
    rm: ResultModel,
)
    requires
        0 <= i < deploys.len(),
        spec_run_deploys(script, st0, deploys, i) == Result::<RunState, int>::Ok(st),
        spec_script_outcomes(script, deploys[i].hash).len() == 1,
        rm == spec_script_outcomes(script, deploys[i].hash)[0],
    ensures
        spec_run_deploys(script, st0, deploys, i + 1) == Result::<RunState, int>::Ok(
            RunState {
                root: spec_fold_effects(st.root, rm.journal),
                pending: st.pending + rm.journal,
                results: st.results.push((deploys[i].hash, deploys[i].header, rm)),
            },
        ),
{
    reveal_with_fuel(spec_run_deploys, 1);
}

/// A deploy whose scripted outcome count is not one fails the whole run at
/// its index.
pub proof fn lemma_run_deploys_stops(
    script: Seq<ScriptModel>,
    st0: RunState,
    deploys: Seq<Deploy>,
    i: int,
)
    requires
        0 <= i < deploys.len(),
        spec_run_deploys(script, st0, deploys, i) is Ok,
        spec_script_outcomes(script, deploys[i].hash).len() != 1,
    ensures
        spec_run_deploys(script, st0, deploys, deploys.len() as int) == Result::<
            RunState,
            int,
        >::Err(i),
{
    reveal_with_fuel(spec_run_deploys, 1);
    assert(spec_run_deploys(script, st0, deploys, i + 1) == Result::<RunState, int>::Err(i));
    lemma_run_deploys_err(script, st0, deploys, i + 1, deploys.len() as int);
}

/// The checksum-registry write of a block.
pub open spec fn spec_registry_effect(
    approvals_checksum: Digest,
    execution_results_checksum: Digest,
) -> Effect {
    Effect {
        key: CHECKSUM_REGISTRY_KEY,
        value: StoredValue::ChecksumRegistry { approvals_checksum, execution_results_checksum },
    }
}

/// Model of a fully executed block.
#[verifier::ext_equal]
pub ghost struct ExecutedModel {
    /// The authoritative root after the durable flush.
    pub final_root: Digest,
    /// The ordered per-deploy results.
    pub results: Seq<(Digest, DeployHeader, ResultModel)>,
    pub approvals_checksum: Digest,
    pub execution_results_checksum: Digest,
    /// Full write history of the flushed snapshot.
    pub entries: Seq<Effect>,
    /// The step's journal, on era-ending blocks.
    pub step_journal: Option<Seq<Effect>>,
    /// The successor era's weights, on era-ending blocks with a scripted
    /// entry for that era.
    pub next_era_weights: Option<Seq<WeightEntry>>,
}

/// What executing a finalized block against an engine yields.
#[verifier::ext_equal]
pub ghost enum BlockOutcome {
    /// The block's height is not the expected next height.
    WrongHeight,
    /// The pre-state root identifies no committed snapshot.
    RootNotFound,
    /// The engine's scripted outcome count for the deploy at this index is
    /// not one.
    BadResultCount(int),
    /// The block ends an era and the step is scripted to fail.
    StepFailed,
    /// The block executed; the model of everything it produced.
    Executed(ExecutedModel),
}

/// The full functional model of `execute_finalized_block`.
pub open spec fn spec_execute_block(
    m: EngineModel,
    execution_pre_state: ExecutionPreState,
    finalized_block: FinalizedBlock,
    deploys: Seq<Deploy>,
) -> BlockOutcome {
    if finalized_block.height != execution_pre_state.next_block_height {
        BlockOutcome::WrongHeight
    } else {
        match spec_find_snapshot(m.snapshots, execution_pre_state.pre_state_root_hash) {
            Option::None => BlockOutcome::RootNotFound,
            Option::Some(base) => {
                match spec_run_deploys(
                    m.script,
                    spec_start(execution_pre_state.pre_state_root_hash),
                    deploys,
                    deploys.len() as int,
                ) {
                    Result::Err(i) => BlockOutcome::BadResultCount(i),
                    Result::Ok(st) => {
                        let ac = spec_approvals_checksum(
                            deploys.map_values(|d: Deploy| d.spec_id()),
                        );
                        let ec = spec_execution_results_checksum(
                            st.results.map_values(
                                |t: (Digest, DeployHeader, ResultModel)| t.2,
                            ),
                        );
                        let reg = spec_registry_effect(ac, ec);
                        let root1 = spec_fold_effects(st.root, seq![reg]);
                        let pending1 = st.pending.push(reg);
                        if finalized_block.era_report is Some {
                            if m.step_fails {
                                BlockOutcome::StepFailed
                            } else {
                                BlockOutcome::Executed(
                                    ExecutedModel {
                                        final_root: spec_fold_effects(root1, m.step_effects),
                                        results: st.results,
                                        approvals_checksum: ac,
                                        execution_results_checksum: ec,
                                        entries: base.entries + (pending1 + m.step_effects),
                                        step_journal: Some(m.step_effects),
                                        next_era_weights: spec_lookup_era(
                                            m.era_validators,
                                            (finalized_block.era_id + 1) as u64,
                                        ),
                                    },
                                )
                            }
                        } else {
                            BlockOutcome::Executed(
                                ExecutedModel {
                                    final_root: root1,
                                    results: st.results,
                                    approvals_checksum: ac,
                                    execution_results_checksum: ec,
                                    entries: base.entries + pending1,
                                    step_journal: None,
                                    next_era_weights: None,
                                },
                            )
                        }
                    },
                }
            },
        }
    }
}

/// Determinism law: the outcome of executing a finalized block is a pure
/// function of the engine model, the pre-state, the block's height, era and
/// era-report presence, and the ordered deploy list. Two invocations on
/// engines with equal models and equal inputs yield equal outcomes — nothing
/// else (time, iteration order, identity of the block value) can enter.
pub proof fn lemma_execution_deterministic(
    m1: EngineModel,
    m2: EngineModel,
    execution_pre_state: ExecutionPreState,
    fb1: FinalizedBlock,
    fb2: FinalizedBlock,
    deploys: Seq<Deploy>,
)
    requires
        m1 == m2,
        fb1.height == fb2.height,
        fb1.era_id == fb2.era_id,
        fb1.era_report is Some <==> fb2.era_report is Some,
    ensures
        spec_execute_block(m1, execution_pre_state, fb1, deploys) == spec_execute_block(
            m2,
            execution_pre_state,
            fb2,
            deploys,
        ),
{
}

/// Everything the success contract owes of the returned bundle, relative to
/// the executed-block model.
pub open spec fn bundle_matches(
    b: BlockAndExecutionResults,
    em: ExecutedModel,
    m0: EngineModel,
    execution_pre_state: ExecutionPreState,
    finalized_block: FinalizedBlock,
    deploys: Seq<Deploy>,
    protocol_version: u64,
) -> bool {
    &&& b.block.hash == spec_block_hash(
        execution_pre_state.parent_hash,
        execution_pre_state.parent_seed,
        em.final_root,
        finalized_block.height,
        finalized_block.timestamp_millis,
        finalized_block.era_id,
        finalized_block.proposer,
        protocol_version,
    )
    &&& b.block.parent_hash == execution_pre_state.parent_hash
    &&& b.block.parent_seed == execution_pre_state.parent_seed
    &&& b.block.state_root_hash == em.final_root
    &&& b.block.height == finalized_block.height
    &&& b.block.timestamp_millis == finalized_block.timestamp_millis
    &&& b.block.era_id == finalized_block.era_id
    &&& b.block.proposer == finalized_block.proposer
    &&& opt_era_report_model(b.block.era_report) == opt_era_report_model(
        finalized_block.era_report,
    )
    &&& opt_weights_model(b.block.next_era_validator_weights) == em.next_era_weights
    &&& b.block.protocol_version == protocol_version
    &&& results_match(b.execution_results@, em.results)
    &&& b.approvals_hashes.block_hash == b.block.hash
    &&& b.approvals_hashes.approvals_hashes@ == deploys.map_values(
        |d: Deploy| d.approvals_hash,
    )
    &&& b.approvals_hashes.checksum_registry_proof.state_root == em.final_root
    &&& b.approvals_hashes.checksum_registry_proof.key == CHECKSUM_REGISTRY_KEY
    &&& Some(b.approvals_hashes.checksum_registry_proof.value) == spec_lookup(
        em.entries,
        CHECKSUM_REGISTRY_KEY,
    )
    &&& match em.step_journal {
        Option::None => b.maybe_step_effect_and_upcoming_era_validators is None,
        Option::Some(j) => b.maybe_step_effect_and_upcoming_era_validators matches Some(se)
            && se.step_execution_journal@ == j && se.upcoming_era_validators@.map_values(
            |e: EraValidators| era_model(e),
        ) == m0.era_validators,
    }
}

/// Runs one deploy through the engine. The outcome count is the engine's to
/// answer and the caller's to judge.
pub fn execute(engine: &Engine, execute_request: &ExecuteRequest) -> (r: Vec<ExecutionResult>)
    ensures
        r@.map_values(|x: ExecutionResult| result_model(x)) == spec_script_outcomes(
            engine.model().script,
            execute_request.deploy.hash,
        ),
{
    engine.run_execute(execute_request)
}

/// Commits a journal of effects to the scratch overlay and returns the new
/// root digest.
pub fn commit_transforms(scratch: &mut Scratch, effects: &Vec<Effect>) -> (r: Digest)
    requires
        old(scratch).wf(),
    ensures
        final(scratch).wf(),
        final(scratch).base_root == old(scratch).base_root,
        final(scratch).base@ == old(scratch).base@,
        final(scratch).pending@ == old(scratch).pending@ + effects@,
        final(scratch).current == spec_fold_effects(old(scratch).current, effects@),
        r == final(scratch).current,
{
    scratch.commit(effects)
}

/// Requires exactly one result for the single-deploy request, commits its
/// journal — success or failure alike — and returns the new root with the
/// result. Any other result count is a fatal engine-contract breach.
pub fn commit_execution_results(
    scratch: &mut Scratch,
    deploy_hash: Digest,
    execution_results: Vec<ExecutionResult>,
) -> (r: Result<(Digest, ExecutionResult), BlockExecutionError>)
    requires
        old(scratch).wf(),
    ensures
        execution_results@.len() != 1 ==> ({
            &&& r matches Err(BlockExecutionError::MoreThanOneExecutionResult)
            &&& final(scratch).base_root == old(scratch).base_root
            &&& final(scratch).base@ == old(scratch).base@
            &&& final(scratch).pending@ == old(scratch).pending@
            &&& final(scratch).current == old(scratch).current
        }),
        execution_results@.len() == 1 ==> ({
            &&& r matches Ok(t) && ({
                &&& result_model(t.1) == result_model(execution_results@[0])
                &&& t.0 == final(scratch).current
            })
            &&& final(scratch).base_root == old(scratch).base_root
            &&& final(scratch).base@ == old(scratch).base@
            &&& final(scratch).pending@ == old(scratch).pending@ + result_model(
                execution_results@[0],
            ).journal
            &&& final(scratch).current == spec_fold_effects(
                old(scratch).current,
                result_model(execution_results@[0]).journal,
            )
        }),
        final(scratch).wf(),
{
    let mut execution_results = execution_results;
    if execution_results.len() != 1 {
        return Err(BlockExecutionError::MoreThanOneExecutionResult);
    }
    match execution_results.pop() {
        Option::Some(result) => {
            let new_root = commit_transforms(scratch, &result.journal);
            Ok((new_root, result))
        },
        Option::None => Err(BlockExecutionError::MoreThanOneExecutionResult),
    }
}

/// Runs the era step for an era-ending block: rewards pass through, the
/// eviction set is the union of inactive validators and equivocators, nothing
/// is slashed, and the step's journal is committed to the scratch overlay.
pub fn commit_step(
    engine: &Engine,
    scratch: &mut Scratch,
    protocol_version: u64,
    pre_state_root_hash: Digest,
    era_report: &EraReport,
    era_end_timestamp_millis: u64,
    next_era_id: u64,
) -> (r: Result<StepSuccess, StepError>)
    requires
        old(scratch).wf(),
    ensures
        final(scratch).wf(),
        engine.model().step_fails ==> ({
            &&& r matches Err(StepError::EngineFailure)
            &&& final(scratch).base_root == old(scratch).base_root
            &&& final(scratch).base@ == old(scratch).base@
            &&& final(scratch).pending@ == old(scratch).pending@
            &&& final(scratch).current == old(scratch).current
        }),
        !engine.model().step_fails ==> ({
            &&& r matches Ok(ss) && ({
                &&& ss.post_state_hash == final(scratch).current
                &&& ss.execution_journal@ == engine.model().step_effects
            })
            &&& final(scratch).base_root == old(scratch).base_root
            &&& final(scratch).base@ == old(scratch).base@
            &&& final(scratch).pending@ == old(scratch).pending@ + engine.model().step_effects
            &&& final(scratch).current == spec_fold_effects(
                old(scratch).current,
                engine.model().step_effects,
            )
        }),
{
    let step_request = build_step_request(
        pre_state_root_hash,
        protocol_version,
        era_report,
        era_end_timestamp_millis,
        next_era_id,
    );
    engine.run_step(scratch, step_request)
}

/// Executes and commits every deploy in the exact order given, threading the
/// root digest forward, and records one result per deploy. Fails fatally on
/// the first deploy whose engine outcome count is not one.
fn run_all_deploys(
    engine: &Engine,
    scratch: &mut Scratch,
    deploys: &Vec<Deploy>,
    block_time: u64,
    protocol_version: u64,
    proposer: u64,
) -> (r: Result<(Digest, Vec<(Digest, DeployHeader, ExecutionResult)>), BlockExecutionError>)
    requires
        old(scratch).wf(),
        old(scratch).pending@ == Seq::<Effect>::empty(),
        old(scratch).current == old(scratch).base_root,
    ensures
        final(scratch).wf(),
        final(scratch).base_root == old(scratch).base_root,
        final(scratch).base@ == old(scratch).base@,
        ({
            let run = spec_run_deploys(
                engine.model().script,
                spec_start(old(scratch).base_root),
                deploys@,
                deploys@.len() as int,
            );
            &&& (run is Err <==> (r matches Err(
                BlockExecutionError::MoreThanOneExecutionResult,
            )))
            &&& (run is Err <==> r is Err)
            &&& (run matches Ok(st) ==> (r matches Ok(t) && ({
                &&& t.0 == st.root
                &&& results_match(t.1@, st.results)
                &&& final(scratch).pending@ == st.pending
                &&& final(scratch).current == st.root
            })))
        }),
{
    let ghost script = engine.model().script;
    let ghost st0 = spec_start(old(scratch).base_root);
    let mut execution_results: Vec<(Digest, DeployHeader, ExecutionResult)> = Vec::new();
    let ghost mut rs: Seq<(Digest, DeployHeader, ResultModel)> = Seq::empty();
    let mut state_root_hash = scratch.current;
    proof {
        assert(spec_run_deploys(script, st0, deploys@, 0) == Result::<RunState, int>::Ok(
            RunState { root: state_root_hash, pending: scratch.pending@, results: rs },
        )) by {
            reveal_with_fuel(spec_run_deploys, 1);
        }
    }
    let mut i: usize = 0;
    while i < deploys.len()
        invariant
            i <= deploys@.len(),
            script == engine.model().script,
            st0 == spec_start(old(scratch).base_root),
            scratch.wf(),
            scratch.base_root == old(scratch).base_root,
            scratch.base@ == old(scratch).base@,
            scratch.current == state_root_hash,
            results_match(execution_results@, rs),
            spec_run_deploys(script, st0, deploys@, i as int) == Result::<RunState, int>::Ok(
                RunState { root: state_root_hash, pending: scratch.pending@, results: rs },
            ),
        decreases deploys@.len() - i,
    {
        let deploy = deploys[i];
        let execute_request = ExecuteRequest {
            state_root_hash,
            block_time,
            deploy,
            protocol_version,
            proposer,
        };
        let result = execute(engine, &execute_request);
        let ghost outs = spec_script_outcomes(script, deploy.hash);
        let ghost st_before = RunState {
            root: state_root_hash,
            pending: scratch.pending@,
            results: rs,
        };
        match commit_execution_results(&mut *scratch, deploy.hash, result) {
            Result::Ok(t) => {
                let (state_hash, execution_result) = t;
                execution_results.push((deploy.hash, deploy.header, execution_result));
                state_root_hash = state_hash;
                proof {
                    assert(outs.len() == 1);
                    assert(result_model(result@[0]) == outs[0]);
                    assert(deploys@[i as int] == deploy);
                    lemma_run_deploys_step(script, st0, deploys@, i as int, st_before, outs[0]);
                    rs = rs.push((deploy.hash, deploy.header, outs[0]));
                }
            },
            Result::Err(e) => {
                proof {
                    assert(outs.len() != 1);
                    lemma_run_deploys_stops(script, st0, deploys@, i as int);
                }
                return Err(e);
            },
        }
        i = i + 1;
    }
    Ok((state_root_hash, execution_results))
}

/// Executes a finalized block: validates height continuity, executes every
/// deploy in the exact order given against a scratch overlay, commits each
/// deploy's effects before the next starts, writes both audit checksums into
/// the checksum registry, runs the era step on era-ending blocks, flushes the
/// overlay to durable storage as the block's single durable write, fetches
/// the registry inclusion witness and assembles the block.
///
/// The result is a pure function of the engine model and the inputs: the
/// whole contract goes through `spec_execute_block`, so two calls on equal
/// engines and equal inputs yield equal outcomes. On every error the engine
/// is untouched.
#[verifier::rlimit(100)]
pub fn execute_finalized_block(
    engine: &mut Engine,
    protocol_version: u64,
    execution_pre_state: ExecutionPreState,
    finalized_block: FinalizedBlock,
    deploys: Vec<Deploy>,
) -> (r: Result<BlockAndExecutionResults, BlockExecutionError>)
    requires
        model_wf(old(engine).model()),
        finalized_block.era_id < u64::MAX,
    ensures
        ({
            let out = spec_execute_block(
                old(engine).model(),
                execution_pre_state,
                finalized_block,
                deploys@,
            );
            &&& (out is WrongHeight <==> (r matches Err(
                BlockExecutionError::WrongBlockHeight { .. },
            )))
            &&& (r matches Err(BlockExecutionError::WrongBlockHeight {
                finalized_block: f,
                execution_pre_state: p,
            }) ==> ({
                &&& p == execution_pre_state
                &&& f.height == finalized_block.height
                &&& f.timestamp_millis == finalized_block.timestamp_millis
                &&& f.era_id == finalized_block.era_id
                &&& f.proposer == finalized_block.proposer
                &&& opt_era_report_model(f.era_report) == opt_era_report_model(
                    finalized_block.era_report,
                )
            }))
            &&& (out is RootNotFound <==> (r matches Err(BlockExecutionError::RootNotFound(d))
                && d == execution_pre_state.pre_state_root_hash))
            &&& (out is BadResultCount <==> (r matches Err(
                BlockExecutionError::MoreThanOneExecutionResult,
            )))
            &&& (out is StepFailed <==> (r matches Err(BlockExecutionError::Step(
                StepError::EngineFailure,
            ))))
            &&& (out is Executed <==> r is Ok)
            &&& (out matches BlockOutcome::Executed(em) ==> ({
                &&& r matches Ok(b) && bundle_matches(
                    b,
                    em,
                    old(engine).model(),
                    execution_pre_state,
                    finalized_block,
                    deploys@,
                    protocol_version,
                )
                &&& final(engine).model() == (EngineModel {
                    snapshots: old(engine).model().snapshots.push(
                        SnapModel { root: em.final_root, entries: em.entries },
                    ),
                    ..old(engine).model()
                })
                &&& model_wf(final(engine).model())
            }))
            &&& (r is Err ==> final(engine).model() == old(engine).model())
        }),
{
    if finalized_block.height != execution_pre_state.next_block_height {
        return Err(
            BlockExecutionError::WrongBlockHeight { finalized_block, execution_pre_state },
        );
    }
    let ghost m0 = engine.model();
    let pre_state_root_hash = execution_pre_state.pre_state_root_hash;
    let block_time = finalized_block.timestamp_millis;

    // The deploy identities, taken before execution: the approvals checksum
    // commits to them in order.
    let mut deploy_ids: Vec<DeployId> = Vec::new();
    let mut i: usize = 0;
    while i < deploys.len()
        invariant
            i <= deploys@.len(),
            deploy_ids@ == deploys@.take(i as int).map_values(|d: Deploy| d.spec_id()),
        decreases deploys@.len() - i,
    {
        deploy_ids.push(deploys[i].id());
        proof {
            assert(deploys@.take(i + 1 as int).map_values(|d: Deploy| d.spec_id())
                =~= deploys@.take(i as int).map_values(|d: Deploy| d.spec_id()).push(
                deploys@[i as int].spec_id()));
        }
        i = i + 1;
    }
    proof {
        assert(deploys@.take(deploys@.len() as int) =~= deploys@);
    }
    let approvals_checksum = compute_approvals_checksum(&deploy_ids);

    let mut scratch = match engine.open_scratch(pre_state_root_hash) {
        Option::Some(s) => s,
        Option::None => {
            return Err(BlockExecutionError::RootNotFound(pre_state_root_hash));
        },
    };
    let ghost base_entries = scratch.base@;
    let ghost st0 = spec_start(pre_state_root_hash);

    // Deploys run in the exact order given: the order is part of consensus,
    // and each deploy's input root is the previous deploy's output root.
    let run_output = match run_all_deploys(
        engine,
        &mut scratch,
        &deploys,
        block_time,
        protocol_version,
        finalized_block.proposer,
    ) {
        Result::Ok(t) => t,
        Result::Err(e) => {
            return Err(e);
        },
    };
    let (run_root, execution_results) = run_output;
    let mut state_root_hash = run_root;

    let ghost st = spec_run_deploys(m0.script, st0, deploys@, deploys@.len() as int)->Ok_0;

    // The results checksum commits to the ordered results themselves, so a
    // node that receives result data in chunks can verify it.
    let mut results_only: Vec<ExecutionResult> = Vec::new();
    let mut k: usize = 0;
    while k < execution_results.len()
        invariant
            k <= execution_results@.len(),
            results_only@.len() == k,
            forall|j: int|
                0 <= j < k ==> result_model(#[trigger] results_only@[j]) == result_model(
                    execution_results@[j].2,
                ),
        decreases execution_results@.len() - k,
    {
        results_only.push(copy_result(&execution_results[k].2));
        k = k + 1;
    }
    let execution_results_checksum = compute_execution_results_checksum(&results_only);
    proof {
        assert(results_match(execution_results@, st.results));
        let lhs = results_only@.map_values(|x: ExecutionResult| result_model(x));
        let rhs = st.results.map_values(|t: (Digest, DeployHeader, ResultModel)| t.2);
        assert(lhs =~= rhs) by {
            assert(lhs.len() == rhs.len());
            assert forall|j: int| 0 <= j < rhs.len() implies #[trigger] lhs[j] == rhs[j] by {
                assert(triple_model(execution_results@[j]) == st.results[j]);
                assert(result_model(results_only@[j]) == result_model(
                    execution_results@[j].2,
                ));
            }
        }
    }

    // One further committed effect: the checksum registry write.
    let reg_effect = Effect {
        key: CHECKSUM_REGISTRY_KEY,
        value: StoredValue::ChecksumRegistry { approvals_checksum, execution_results_checksum },
    };
    let mut effects: Vec<Effect> = Vec::new();
    effects.push(reg_effect);
    proof {
        assert(effects@ =~= seq![spec_registry_effect(
            approvals_checksum,
            execution_results_checksum,
        )]);
    }
    state_root_hash = commit_transforms(&mut scratch, &effects);
    let ghost pending1 = scratch.pending@;
    proof {
        assert(pending1 =~= st.pending.push(spec_registry_effect(
            approvals_checksum,
            execution_results_checksum,
        )));
    }

    // On era-ending blocks, run the step against the scratch overlay, then
    // flush; otherwise flush directly. Either way the flush's root is the
    // authoritative one.
    let maybe_step_effect_and_upcoming_era_validators: Option<
        StepEffectAndUpcomingEraValidators,
    > = match &finalized_block.era_report {
        Option::Some(era_report) => {
            let step_result = commit_step(
                engine,
                &mut scratch,
                protocol_version,
                state_root_hash,
                era_report,
                finalized_block.timestamp_millis,
                finalized_block.era_id + 1,
            );
            let step_success = match step_result {
                Result::Ok(s) => s,
                Result::Err(e) => {
                    return Err(BlockExecutionError::Step(e));
                },
            };
            let StepSuccess { post_state_hash: _, execution_journal: step_execution_journal } =
                step_success;
            state_root_hash = engine.write_scratch_to_db(scratch);
            let upcoming_era_validators = engine.get_era_validators(
                state_root_hash,
                protocol_version,
            );
            Some(
                StepEffectAndUpcomingEraValidators {
                    step_execution_journal,
                    upcoming_era_validators,
                },
            )
        },
        Option::None => {
            state_root_hash = engine.write_scratch_to_db(scratch);
            None
        },
    };
    let ghost out = spec_execute_block(m0, execution_pre_state, finalized_block, deploys@);
    let ghost em = out->Executed_0;
    let ghost sm = spec_find_snapshot(m0.snapshots, pre_state_root_hash)->Some_0;
    proof {
        assert(spec_find_snapshot(m0.snapshots, pre_state_root_hash) is Some);
        assert(sm.entries == base_entries);
        assert(out is Executed);
        assert(pending1 == st.pending.push(spec_registry_effect(
            approvals_checksum,
            execution_results_checksum,
        )));
        assert(spec_lookup(pending1, CHECKSUM_REGISTRY_KEY) is Some);
        if finalized_block.era_report is Some {
            lemma_lookup_append(pending1, m0.step_effects, CHECKSUM_REGISTRY_KEY);
            lemma_lookup_append(
                base_entries,
                pending1 + m0.step_effects,
                CHECKSUM_REGISTRY_KEY,
            );
            assert(em.entries == base_entries + (pending1 + m0.step_effects));
            assert(state_root_hash == em.final_root);
        } else {
            lemma_lookup_append(base_entries, pending1, CHECKSUM_REGISTRY_KEY);
            assert(em.entries == base_entries + pending1);
            assert(state_root_hash == em.final_root);
        }
        assert(spec_lookup(em.entries, CHECKSUM_REGISTRY_KEY) is Some);
        assert(engine.model().snapshots.last() =~= (SnapModel {
            root: em.final_root,
            entries: em.entries,
        }));
        assert(engine.model() =~= (EngineModel {
            snapshots: m0.snapshots.push(SnapModel { root: em.final_root, entries: em.entries }),
            ..m0
        }));
    }

    let proof_of_checksum_registry = match engine.get_checksum_registry_proof(state_root_hash) {
        Option::Some(p) => p,
        Option::None => {
            proof {
                assert(false);
            }
            return Err(BlockExecutionError::RootNotFound(state_root_hash));
        },
    };

    let next_era_validator_weights: Option<Vec<WeightEntry>> = match (
        &maybe_step_effect_and_upcoming_era_validators
    ) {
        Option::Some(se) => lookup_era_weights(
            &se.upcoming_era_validators,
            finalized_block.era_id + 1,
        ),
        Option::None => None,
    };

    let block = Block::new(
        execution_pre_state.parent_hash,
        execution_pre_state.parent_seed,
        state_root_hash,
        finalized_block,
        next_era_validator_weights,
        protocol_version,
    );

    let mut approvals_hashes_vec: Vec<Digest> = Vec::new();
    let mut k: usize = 0;
    while k < deploy_ids.len()
        invariant
            k <= deploy_ids@.len(),
            deploy_ids@ == deploys@.map_values(|d: Deploy| d.spec_id()),
            approvals_hashes_vec@.len() == k,
            forall|j: int|
                0 <= j < k ==> #[trigger] approvals_hashes_vec@[j] == deploys@[j].approvals_hash,
        decreases deploy_ids@.len() - k,
    {
        approvals_hashes_vec.push(deploy_ids[k].approvals_hash);
        k = k + 1;
    }
    proof {
        assert(approvals_hashes_vec@ =~= deploys@.map_values(|d: Deploy| d.approvals_hash));
    }
    let approvals_hashes = ApprovalsHashes {
        block_hash: block.hash,
        approvals_hashes: approvals_hashes_vec,
        checksum_registry_proof: proof_of_checksum_registry,
    };

    let bundle = BlockAndExecutionResults {
        block,
        approvals_hashes,
        execution_results,
        maybe_step_effect_and_upcoming_era_validators,
    };
    proof {
        assert(em.results == st.results);
        assert(results_match(bundle.execution_results@, em.results));
        if finalized_block.era_report is Some {
            assert(opt_weights_model(bundle.block.next_era_validator_weights)
                == em.next_era_weights);
        } else {
            assert(bundle.block.next_era_validator_weights is None);
        }
    }
    Ok(bundle)
}

/// Executes one deploy against an already-committed state root, with no
/// scratch overlay and no commit: read-only discovery tooling.
///
/// A result count other than one yields no result here, not an error: unlike
/// the block path, speculative execution is best-effort and not
/// consensus-critical.
pub fn execute_only(
    engine: &Engine,
    execution_state: SpeculativeExecutionState,
    deploy: Deploy,
) -> (r: Result<Option<ExecutionResult>, crate::types::EngineError>)
    ensures
        !spec_has_root(engine.model().snapshots, execution_state.state_root_hash) <==> (r
            matches Err(crate::types::EngineError::RootNotFound(d)) && d
            == execution_state.state_root_hash),
        spec_has_root(engine.model().snapshots, execution_state.state_root_hash) ==> ({
            let outs = spec_script_outcomes(engine.model().script, deploy.hash);
            if outs.len() == 1 {
                r matches Ok(Some(res)) && result_model(res) == outs[0]
            } else {
                r matches Ok(res) && res is None
            }
        }),
{
    let SpeculativeExecutionState { state_root_hash, block_time, protocol_version } =
        execution_state;
    if !engine.has_root(state_root_hash) {
        return Err(crate::types::EngineError::RootNotFound(state_root_hash));
    }
    let execute_request = ExecuteRequest {
        state_root_hash,
        block_time,
        deploy,
        protocol_version,
        proposer: SYSTEM_ACCOUNT,
    };
    let mut execution_results = execute(engine, &execute_request);
    if execution_results.len() != 1 {
        Ok(None)
    } else {
        proof {
            let outs = spec_script_outcomes(engine.model().script, deploy.hash);
            assert(result_model(execution_results@.last()) == outs[0]);
        }
        Ok(execution_results.pop())
    }
}

} // verus!

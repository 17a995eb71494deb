use contract_runtime::checksum::{compute_approvals_checksum, compute_execution_results_checksum};
use contract_runtime::digest::{empty_state_root, Digest};
use contract_runtime::effects::{Effect, StoredValue, CHECKSUM_REGISTRY_KEY};
use contract_runtime::engine::Engine;
use contract_runtime::operations::{
    execute_finalized_block, execute_only, SpeculativeExecutionState,
};
use contract_runtime::types::{
    BlockExecutionError, Deploy, DeployHeader, EngineError, EraReport, ExecutionPreState,
    ExecutionResult, FinalizedBlock,
};

fn d(v: u64) -> Digest {
    Digest { value: v }
}

fn deploy(hash: u64, approvals: u64) -> Deploy {
    Deploy {
        hash: d(hash),
        approvals_hash: d(approvals),
        header: DeployHeader { account: 1, timestamp_millis: 500 },
    }
}

fn success_result(cost: u64, journal: Vec<Effect>) -> ExecutionResult {
    ExecutionResult { success: true, cost, journal }
}

fn pre_state() -> ExecutionPreState {
    ExecutionPreState {
        pre_state_root_hash: empty_state_root(),
        parent_hash: d(100),
        parent_seed: d(101),
        next_block_height: 0,
    }
}

fn non_era_block(height: u64) -> FinalizedBlock {
    FinalizedBlock {
        height,
        timestamp_millis: 1000,
        era_id: 3,
        proposer: 9,
        era_report: None,
    }
}

fn era_block(height: u64, report: EraReport) -> FinalizedBlock {
    FinalizedBlock {
        height,
        timestamp_millis: 1000,
        era_id: 3,
        proposer: 9,
        era_report: Some(report),
    }
}

fn empty_report() -> EraReport {
    EraReport { equivocators: vec![], rewards: vec![], inactive_validators: vec![] }
}

#[test]
fn height_gate_rejects_wrong_height_before_any_execution() {
    let mut engine = Engine::new();
    let result = execute_finalized_block(&mut engine, 1, pre_state(), non_era_block(7), vec![]);
    match result {
        Err(BlockExecutionError::WrongBlockHeight { finalized_block, execution_pre_state }) => {
            assert_eq!(finalized_block.height, 7);
            assert_eq!(execution_pre_state.next_block_height, 0);
        },
        _ => panic!("expected a height-mismatch error"),
    }
}

#[test]
fn unknown_pre_state_root_is_rejected() {
    let mut engine = Engine::new();
    let mut pre = pre_state();
    pre.pre_state_root_hash = d(999);
    let result = execute_finalized_block(&mut engine, 1, pre, non_era_block(0), vec![]);
    assert!(matches!(result, Err(BlockExecutionError::RootNotFound(r)) if r == d(999)));
}

#[test]
fn single_successful_deploy_non_era_block() {
    let mut engine = Engine::new();
    let dep = deploy(11, 21);
    let journal = vec![Effect { key: 7, value: StoredValue::Raw(1) }];
    engine.add_script_entry(dep.hash, vec![success_result(10, journal.clone())]);

    let bundle = execute_finalized_block(&mut engine, 1, pre_state(), non_era_block(0), vec![dep])
        .expect("block execution must succeed");

    assert_eq!(bundle.execution_results.len(), 1);
    let (hash, header, result) = &bundle.execution_results[0];
    assert_eq!(*hash, d(11));
    assert_eq!(header.account, 1);
    assert!(result.success);
    assert_eq!(result.cost, 10);

    assert_ne!(bundle.block.state_root_hash, empty_state_root());
    assert!(bundle.maybe_step_effect_and_upcoming_era_validators.is_none());
    assert!(bundle.block.next_era_validator_weights.is_none());

    assert_eq!(bundle.approvals_hashes.block_hash, bundle.block.hash);
    assert_eq!(bundle.approvals_hashes.approvals_hashes, vec![d(21)]);
    let proof = &bundle.approvals_hashes.checksum_registry_proof;
    assert_eq!(proof.state_root, bundle.block.state_root_hash);
    assert_eq!(proof.key, CHECKSUM_REGISTRY_KEY);
    let expected_value = StoredValue::ChecksumRegistry {
        approvals_checksum: compute_approvals_checksum(&vec![dep.id()]),
        execution_results_checksum: compute_execution_results_checksum(&vec![success_result(
            10,
            journal,
        )]),
    };
    assert_eq!(proof.value, expected_value);
}

#[test]
fn failed_deploy_commits_its_journal_like_a_success() {
    let mut engine = Engine::new();
    let dep = deploy(12, 22);
    let failure = ExecutionResult {
        success: false,
        cost: 4,
        journal: vec![Effect { key: 8, value: StoredValue::Raw(5) }],
    };
    engine.add_script_entry(dep.hash, vec![failure]);
    let bundle = execute_finalized_block(&mut engine, 1, pre_state(), non_era_block(0), vec![dep])
        .expect("an application-level failure is not a pipeline error");
    assert_eq!(bundle.execution_results.len(), 1);
    assert!(!bundle.execution_results[0].2.success);
}

#[test]
fn empty_era_ending_block_runs_the_step() {
    let mut engine = Engine::new();
    engine.add_era_validators(4, vec![contract_runtime::types::WeightEntry {
        validator: 42,
        weight: 1000,
    }]);
    let bundle = execute_finalized_block(
        &mut engine,
        1,
        pre_state(),
        era_block(0, empty_report()),
        vec![],
    )
        .expect("empty era-ending block must execute");

    assert!(bundle.execution_results.is_empty());
    assert_ne!(bundle.block.state_root_hash, empty_state_root());
    let step = bundle
        .maybe_step_effect_and_upcoming_era_validators
        .expect("an era-ending block has a step outcome");
    assert_eq!(step.upcoming_era_validators.len(), 1);
    let weights = bundle.block.next_era_validator_weights.expect("successor era is scripted");
    assert_eq!(weights.len(), 1);
    assert_eq!(weights[0].validator, 42);
    assert_eq!(weights[0].weight, 1000);
}

#[test]
fn era_block_without_scripted_successor_weights_has_none() {
    let mut engine = Engine::new();
    let bundle = execute_finalized_block(
        &mut engine,
        1,
        pre_state(),
        era_block(0, empty_report()),
        vec![],
    )
        .expect("block must execute");
    assert!(bundle.maybe_step_effect_and_upcoming_era_validators.is_some());
    assert!(bundle.block.next_era_validator_weights.is_none());
}

#[test]
fn zero_results_for_a_deploy_fail_the_block() {
    let mut engine = Engine::new();
    let dep = deploy(13, 23);
    engine.add_script_entry(dep.hash, vec![]);
    let result =
        execute_finalized_block(&mut engine, 1, pre_state(), non_era_block(0), vec![dep]);
    assert!(matches!(result, Err(BlockExecutionError::MoreThanOneExecutionResult)));
}

#[test]
fn two_results_for_a_deploy_fail_the_block() {
    let mut engine = Engine::new();
    let dep = deploy(14, 24);
    engine.add_script_entry(
        dep.hash,
        vec![success_result(1, vec![]), success_result(2, vec![])],
    );
    let result =
        execute_finalized_block(&mut engine, 1, pre_state(), non_era_block(0), vec![dep]);
    assert!(matches!(result, Err(BlockExecutionError::MoreThanOneExecutionResult)));
}

#[test]
fn step_failure_fails_the_era_block() {
    let mut engine = Engine::new();
    engine.set_step_fails(true);
    let result = execute_finalized_block(
        &mut engine,
        1,
        pre_state(),
        era_block(0, empty_report()),
        vec![],
    );
    assert!(matches!(result, Err(BlockExecutionError::Step(_))));
}

#[test]
fn permuting_overlapping_deploys_changes_the_root() {
    let d1 = deploy(31, 41);
    let d2 = deploy(32, 42);
    let write_one = vec![Effect { key: 5, value: StoredValue::Raw(1) }];
    let write_two = vec![Effect { key: 5, value: StoredValue::Raw(2) }];

    let mut forward = Engine::new();
    forward.add_script_entry(d1.hash, vec![success_result(1, write_one.clone())]);
    forward.add_script_entry(d2.hash, vec![success_result(1, write_two.clone())]);
    let first = execute_finalized_block(&mut forward, 1, pre_state(), non_era_block(0), vec![
        d1, d2,
    ])
        .expect("must execute");

    let mut backward = Engine::new();
    backward.add_script_entry(d1.hash, vec![success_result(1, write_one)]);
    backward.add_script_entry(d2.hash, vec![success_result(1, write_two)]);
    let second = execute_finalized_block(&mut backward, 1, pre_state(), non_era_block(0), vec![
        d2, d1,
    ])
        .expect("must execute");

    assert_ne!(first.block.state_root_hash, second.block.state_root_hash);
}

#[test]
fn repeated_execution_on_equal_engines_is_deterministic() {
    let dep = deploy(15, 25);
    let journal = vec![Effect { key: 9, value: StoredValue::Raw(3) }];

    let mut one = Engine::new();
    one.add_script_entry(dep.hash, vec![success_result(7, journal.clone())]);
    let first = execute_finalized_block(&mut one, 1, pre_state(), non_era_block(0), vec![dep])
        .expect("must execute");

    let mut two = Engine::new();
    two.add_script_entry(dep.hash, vec![success_result(7, journal)]);
    let second = execute_finalized_block(&mut two, 1, pre_state(), non_era_block(0), vec![dep])
        .expect("must execute");

    assert_eq!(first.block.hash, second.block.hash);
    assert_eq!(first.block.state_root_hash, second.block.state_root_hash);
    assert_eq!(first.approvals_hashes.approvals_hashes, second.approvals_hashes.approvals_hashes);
    assert_eq!(
        first.approvals_hashes.checksum_registry_proof,
        second.approvals_hashes.checksum_registry_proof
    );
    assert_eq!(first.execution_results.len(), second.execution_results.len());
    assert_eq!(first.execution_results[0].0, second.execution_results[0].0);
    assert_eq!(first.execution_results[0].2.cost, second.execution_results[0].2.cost);
}

#[test]
fn speculative_execution_returns_the_single_result() {
    let mut engine = Engine::new();
    let dep = deploy(16, 26);
    engine.add_script_entry(dep.hash, vec![success_result(3, vec![])]);
    let state = SpeculativeExecutionState {
        state_root_hash: empty_state_root(),
        block_time: 1000,
        protocol_version: 1,
    };
    let result = execute_only(&engine, state, dep).expect("root is committed");
    let outcome = result.expect("exactly one scripted result");
    assert!(outcome.success);
    assert_eq!(outcome.cost, 3);
}

#[test]
fn speculative_execution_treats_bad_cardinality_as_no_result() {
    let mut engine = Engine::new();
    let none_dep = deploy(17, 27);
    let two_dep = deploy(18, 28);
    engine.add_script_entry(none_dep.hash, vec![]);
    engine.add_script_entry(
        two_dep.hash,
        vec![success_result(1, vec![]), success_result(2, vec![])],
    );
    let state = SpeculativeExecutionState {
        state_root_hash: empty_state_root(),
        block_time: 1000,
        protocol_version: 1,
    };
    assert!(execute_only(&engine, state, none_dep).expect("no error").is_none());
    assert!(execute_only(&engine, state, two_dep).expect("no error").is_none());
}

#[test]
fn speculative_execution_rejects_an_unknown_root() {
    let engine = Engine::new();
    let state = SpeculativeExecutionState {
        state_root_hash: d(777),
        block_time: 1000,
        protocol_version: 1,
    };
    let result = execute_only(&engine, state, deploy(19, 29));
    assert!(matches!(result, Err(EngineError::RootNotFound(r)) if r == d(777)));
}

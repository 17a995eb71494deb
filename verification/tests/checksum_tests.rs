use contract_runtime::checksum::{
    compute_approvals_checksum, compute_checksum, compute_execution_results_checksum,
};
use contract_runtime::digest::Digest;
use contract_runtime::effects::{Effect, StoredValue};
use contract_runtime::types::{DeployId, ExecutionResult};

fn d(v: u64) -> Digest {
    Digest { value: v }
}

#[test]
fn checksum_of_empty_collection_has_exact_value() {
    let items: Vec<Digest> = Vec::new();
    assert_eq!(compute_checksum(&items).value, 0x22bfeb334b90d7af);
}

#[test]
fn checksum_is_idempotent() {
    let items = vec![d(1), d(2), d(3)];
    let once = compute_checksum(&items);
    let twice = compute_checksum(&items);
    assert_eq!(once, twice);
}

#[test]
fn checksum_changes_when_items_are_reordered() {
    let forward = compute_checksum(&vec![d(1), d(2), d(3)]);
    let swapped = compute_checksum(&vec![d(2), d(1), d(3)]);
    let reversed = compute_checksum(&vec![d(3), d(2), d(1)]);
    assert_ne!(forward, swapped);
    assert_ne!(forward, reversed);
}

#[test]
fn checksum_commits_to_length() {
    let shorter = compute_checksum(&vec![d(1)]);
    let longer = compute_checksum(&vec![d(1), d(0)]);
    assert_ne!(shorter, longer);
}

#[test]
fn approvals_checksum_commits_to_approval_hashes() {
    let one = compute_approvals_checksum(&vec![DeployId {
        deploy_hash: d(1),
        approvals_hash: d(2),
    }]);
    let other = compute_approvals_checksum(&vec![DeployId {
        deploy_hash: d(1),
        approvals_hash: d(3),
    }]);
    assert_ne!(one, other);
}

#[test]
fn execution_results_checksum_commits_to_outcome_and_journal() {
    let success = ExecutionResult {
        success: true,
        cost: 10,
        journal: vec![Effect { key: 7, value: StoredValue::Raw(1) }],
    };
    let failure = ExecutionResult {
        success: false,
        cost: 10,
        journal: vec![Effect { key: 7, value: StoredValue::Raw(1) }],
    };
    let other_journal = ExecutionResult {
        success: true,
        cost: 10,
        journal: vec![Effect { key: 7, value: StoredValue::Raw(2) }],
    };
    let a = compute_execution_results_checksum(&vec![success]);
    let b = compute_execution_results_checksum(&vec![failure]);
    let c = compute_execution_results_checksum(&vec![other_journal]);
    assert_ne!(a, b);
    assert_ne!(a, c);
}

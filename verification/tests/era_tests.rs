use contract_runtime::digest::Digest;
use contract_runtime::era::build_step_request;
use contract_runtime::types::{EraReport, RewardEntry};

fn d(v: u64) -> Digest {
    Digest { value: v }
}

fn evicted(report: &EraReport) -> Vec<u64> {
    let request = build_step_request(d(1), 1, report, 1000, 4);
    let mut out: Vec<u64> = request.evict_items.iter().map(|e| e.validator).collect();
    out.sort();
    out
}

#[test]
fn eviction_set_is_the_union_of_inactive_and_equivocators() {
    let report = EraReport {
        equivocators: vec![10],
        rewards: vec![],
        inactive_validators: vec![20],
    };
    assert_eq!(evicted(&report), vec![10, 20]);
}

#[test]
fn eviction_union_ignores_duplication_and_order() {
    let duplicated = EraReport {
        equivocators: vec![10, 20],
        rewards: vec![],
        inactive_validators: vec![20, 10, 10],
    };
    assert_eq!(evicted(&duplicated), vec![10, 20]);

    let swapped = EraReport {
        equivocators: vec![20, 10],
        rewards: vec![],
        inactive_validators: vec![10, 20],
    };
    assert_eq!(evicted(&swapped), vec![10, 20]);
}

#[test]
fn rewards_pass_through_unchanged_and_nothing_is_slashed() {
    let report = EraReport {
        equivocators: vec![],
        rewards: vec![
            RewardEntry { validator: 1, amount: 50 },
            RewardEntry { validator: 2, amount: 60 },
        ],
        inactive_validators: vec![],
    };
    let request = build_step_request(d(7), 2, &report, 2000, 9);
    assert_eq!(request.pre_state_hash, d(7));
    assert_eq!(request.protocol_version, 2);
    assert_eq!(request.next_era_id, 9);
    assert_eq!(request.era_end_timestamp_millis, 2000);
    assert!(request.slash_items.is_empty());
    assert_eq!(request.reward_items.len(), 2);
    assert_eq!(request.reward_items[0].validator, 1);
    assert_eq!(request.reward_items[0].amount, 50);
    assert_eq!(request.reward_items[1].validator, 2);
    assert_eq!(request.reward_items[1].amount, 60);
    assert!(request.evict_items.is_empty());
}

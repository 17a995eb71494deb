//! Era step: the validator-rotation request built on era-ending blocks.
//!
//! The step request passes the era report's rewards through unchanged, evicts
//! the union of the inactive validators and the equivocators (this network
//! does not distinguish punishment severity at this layer), and never slashes
//! (the interface supports slashing for other deployments only).

use vstd::prelude::*;

use crate::digest::Digest;
use crate::effects::Effect;
use crate::types::{EraReport, EraValidators, WeightEntry};

verus! {

/// A reward handed to the step execution.
#[derive(PartialEq, Eq, Structural, Clone, Copy, Debug)]
pub struct RewardItem {
    pub validator: u64,
    pub amount: u64,
}

/// A slashing order handed to the step execution. Never produced here.
#[derive(PartialEq, Eq, Structural, Clone, Copy, Debug)]
pub struct SlashItem {
    pub validator: u64,
}

/// An eviction order handed to the step execution.
#[derive(PartialEq, Eq, Structural, Clone, Copy, Debug)]
pub struct EvictItem {
    pub validator: u64,
}

/// The privileged auction-housekeeping request run on era-ending blocks.
#[derive(Debug)]
pub struct StepRequest {
    pub pre_state_hash: Digest,
    pub protocol_version: u64,
    pub reward_items: Vec<RewardItem>,
    pub slash_items: Vec<SlashItem>,
    pub evict_items: Vec<EvictItem>,
    pub next_era_id: u64,
    pub era_end_timestamp_millis: u64,
}

/// Outcome of a successful step execution.
#[derive(Debug)]
pub struct StepSuccess {
    /// Root the scratch overlay reports after the step's writes. Provisional:
    /// the orchestrator takes the authoritative root from the durable flush.
    pub post_state_hash: Digest,
    /// The step's effect journal.
    pub execution_journal: Vec<Effect>,
}

/// Whether some eviction item names `v`.
pub open spec fn evict_names(items: Seq<EvictItem>, v: u64) -> bool {
    exists|i: int| 0 <= i < items.len() && items[i].validator == v
}

/// Whether the eviction items carry no validator twice.
pub open spec fn evict_no_duplicates(items: Seq<EvictItem>) -> bool {
    forall|i: int, j: int|
        0 <= i < j < items.len() ==> items[i].validator != items[j].validator
}

/// Whether some eviction item names `v`.
fn evict_items_name(items: &Vec<EvictItem>, v: u64) -> (r: bool)
    ensures
        r == evict_names(items@, v),
{
    let mut i: usize = 0;
    while i < items.len()
        invariant
            i <= items@.len(),
            !evict_names(items@.take(i as int), v),
        decreases items@.len() - i,
    {
        if items[i].validator == v {
            proof {
                assert(items@[i as int].validator == v);
            }
            return true;
        }
        proof {
            assert(forall|k: int|
                0 <= k < i + 1 ==> items@.take(i + 1 as int)[k] == items@[k]);
        }
        i = i + 1;
    }
    proof {
        assert(items@.take(items@.len() as int) =~= items@);
    }
    false
}

/// Appends to `items` every validator of `group` not yet named.
fn extend_evictions(items: Vec<EvictItem>, group: &Vec<u64>) -> (out: Vec<EvictItem>)
    requires
        evict_no_duplicates(items@),
    ensures
        evict_no_duplicates(out@),
        forall|v: u64|
            evict_names(out@, v) <==> (evict_names(items@, v) || group@.contains(v)),
{
    let ghost start = items@;
    let mut items = items;
    let mut i: usize = 0;
    while i < group.len()
        invariant
            i <= group@.len(),
            evict_no_duplicates(items@),
            forall|u: u64| #![trigger evict_names(items@, u)]
                evict_names(items@, u) ==> (evict_names(start, u) || group@.contains(u)),
            forall|u: u64| #![trigger evict_names(start, u)]
                evict_names(start, u) ==> evict_names(items@, u),
            forall|k: int| 0 <= k < i ==> evict_names(items@, #[trigger] group@[k]),
        decreases group@.len() - i,
    {
        let v = group[i];
        let ghost before = items@;
        let already = evict_items_name(&items, v);
        if !already {
            items.push(EvictItem { validator: v });
        }
        proof {
            assert(group@[i as int] == v);
            assert(group@.contains(v));
            assert forall|u: u64| #![trigger evict_names(items@, u)]
                evict_names(items@, u) <==> (evict_names(before, u) || u == v) by {
                if already {
                    if u == v {
                        assert(evict_names(before, v));
                    }
                } else {
                    assert(items@ == before.push(EvictItem { validator: v }));
                    if evict_names(items@, u) {
                        let k = choose|k: int|
                            0 <= k < items@.len() && #[trigger] items@[k].validator == u;
                        if k < before.len() {
                            assert(before[k].validator == u);
                            assert(evict_names(before, u));
                        } else {
                            assert(u == v);
                        }
                    }
                    if evict_names(before, u) {
                        let k = choose|k: int|
                            0 <= k < before.len() && #[trigger] before[k].validator == u;
                        assert(items@[k].validator == u);
                        assert(evict_names(items@, u));
                    }
                    if u == v {
                        assert(items@[before.len() as int].validator == u);
                        assert(evict_names(items@, u));
                    }
                }
            }
            assert forall|a: int, b: int|
                0 <= a < b < items@.len() implies items@[a].validator
                != items@[b].validator by {
                if !already && b == before.len() {
                    if items@[a].validator == v {
                        assert(before[a].validator == v);
                        assert(evict_names(before, v));
                    }
                } else {
                    assert(items@[a] == before[a] && items@[b] == before[b]);
                }
            }
            assert forall|k: int| 0 <= k < i + 1 implies evict_names(
                items@,
                #[trigger] group@[k],
            ) by {
                if k < i {
                    assert(evict_names(before, group@[k]));
                }
                assert(evict_names(items@, group@[k]) <==> (evict_names(before, group@[k])
                    || group@[k] == v));
            }
        }
        i = i + 1;
    }
    proof {
        assert forall|u: u64| group@.contains(u) implies evict_names(items@, u) by {
            let k = choose|k: int| 0 <= k < group@.len() && group@[k] == u;
            assert(evict_names(items@, group@[k]));
        }
    }
    items
}

/// Builds the step request for an era-ending block.
///
/// Rewards pass through unchanged and in order; the eviction set is exactly
/// the union of the report's inactive validators and equivocators, each named
/// once; the slash set is empty.
pub fn build_step_request(
    pre_state_root_hash: Digest,
    protocol_version: u64,
    era_report: &EraReport,
    era_end_timestamp_millis: u64,
    next_era_id: u64,
) -> (r: StepRequest)
    ensures
        r.pre_state_hash == pre_state_root_hash,
        r.protocol_version == protocol_version,
        r.next_era_id == next_era_id,
        r.era_end_timestamp_millis == era_end_timestamp_millis,
        r.slash_items@.len() == 0,
        r.reward_items@.len() == era_report.rewards@.len(),
        forall|i: int|
            0 <= i < era_report.rewards@.len() ==> (r.reward_items@[i].validator
                == era_report.rewards@[i].validator && r.reward_items@[i].amount
                == era_report.rewards@[i].amount),
        forall|v: u64|
            evict_names(r.evict_items@, v) <==> (era_report.inactive_validators@.contains(v)
                || era_report.equivocators@.contains(v)),
        evict_no_duplicates(r.evict_items@),
{
    let mut reward_items: Vec<RewardItem> = Vec::new();
    let mut i: usize = 0;
    while i < era_report.rewards.len()
        invariant
            i <= era_report.rewards@.len(),
            reward_items@.len() == i,
            forall|k: int|
                0 <= k < i ==> (reward_items@[k].validator == era_report.rewards@[k].validator
                    && reward_items@[k].amount == era_report.rewards@[k].amount),
        decreases era_report.rewards@.len() - i,
    {
        let entry = era_report.rewards[i];
        reward_items.push(RewardItem { validator: entry.validator, amount: entry.amount });
        i = i + 1;
    }

    let empty_items: Vec<EvictItem> = Vec::new();
    let ghost e0 = empty_items@;
    let partial_items = extend_evictions(empty_items, &era_report.inactive_validators);
    let ghost e1 = partial_items@;
    let evict_items = extend_evictions(partial_items, &era_report.equivocators);
    proof {
        assert forall|v: u64|
            evict_names(evict_items@, v) <==> (era_report.inactive_validators@.contains(v)
                || era_report.equivocators@.contains(v)) by {
            assert(!evict_names(e0, v));
            assert(evict_names(e1, v) <==> (evict_names(e0, v)
                || era_report.inactive_validators@.contains(v)));
            assert(evict_names(evict_items@, v) <==> (evict_names(e1, v)
                || era_report.equivocators@.contains(v)));
        }
    }

    StepRequest {
        pre_state_hash: pre_state_root_hash,
        protocol_version,
        reward_items,
        slash_items: Vec::new(),
        evict_items,
        next_era_id,
        era_end_timestamp_millis,
    }
}

/// Model of one era's validator weights.
#[verifier::ext_equal]
pub ghost struct EraModel {
    pub era_id: u64,
    pub weights: Seq<WeightEntry>,
}

/// Model of one era's validator weights.
pub open spec fn era_model(e: EraValidators) -> EraModel {
    EraModel { era_id: e.era_id, weights: e.weights@ }
}

/// The weights recorded for `era_id`: the last entry wins.
pub open spec fn spec_lookup_era(table: Seq<EraModel>, era_id: u64) -> Option<Seq<WeightEntry>>
    decreases table.len(),
{
    if table.len() == 0 {
        None
    } else if table.last().era_id == era_id {
        Some(table.last().weights)
    } else {
        spec_lookup_era(table.drop_last(), era_id)
    }
}

/// Copies one era's weight list.
pub fn copy_weights(v: &Vec<WeightEntry>) -> (r: Vec<WeightEntry>)
    ensures
        r@ == v@,
{
    let mut out: Vec<WeightEntry> = Vec::new();
    let mut i: usize = 0;
    while i < v.len()
        invariant
            i <= v@.len(),
            out@ == v@.take(i as int),
        decreases v@.len() - i,
    {
        out.push(v[i]);
        proof {
            assert(v@.take(i + 1 as int) =~= v@.take(i as int).push(v@[i as int]));
        }
        i = i + 1;
    }
    proof {
        assert(v@.take(v@.len() as int) =~= v@);
    }
    out
}

/// Looks up the weights of `era_id` in a validator table.
pub fn lookup_era_weights(table: &Vec<EraValidators>, era_id: u64) -> (r: Option<Vec<WeightEntry>>)
    ensures
        match spec_lookup_era(table@.map_values(|e: EraValidators| era_model(e)), era_id) {
            Option::None => r is None,
            Option::Some(w) => r matches Some(v) && v@ == w,
        },
{
    let ghost models = table@.map_values(|e: EraValidators| era_model(e));
    let mut best: Option<usize> = None;
    let mut i: usize = 0;
    while i < table.len()
        invariant
            i <= table@.len(),
            models == table@.map_values(|e: EraValidators| era_model(e)),
            match best {
                Option::None => spec_lookup_era(models.take(i as int), era_id) is None,
                Option::Some(j) => j < i && table@[j as int].era_id == era_id
                    && spec_lookup_era(models.take(i as int), era_id)
                    == Some(table@[j as int].weights@),
            },
        decreases table@.len() - i,
    {
        if table[i].era_id == era_id {
            best = Some(i);
        }
        proof {
            assert(models.take(i + 1 as int).drop_last() =~= models.take(i as int));
            assert(models.take(i + 1 as int).last() == models[i as int]);
        }
        i = i + 1;
    }
    proof {
        assert(models.take(models.len() as int) =~= models);
    }
    match best {
        Option::None => None,
        Option::Some(j) => Some(copy_weights(&table[j].weights)),
    }
}

} // verus!

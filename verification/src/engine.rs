//! The execution engine and global-state store, as one deterministic,
//! scriptable in-memory collaborator.
//!
//! Real deployments back this interface with a durable key-value trie and a
//! transaction interpreter; both are outside the pipeline's scope, which is
//! why their behaviour is data here: committed snapshots are kept whole, the
//! outcome of running a deploy is looked up in a script table keyed by the
//! deploy hash, and the era step's journal and the validator-weight table are
//! scripted fields. Everything the pipeline relies on — determinism, the
//! snapshot/commit/flush discipline, and the journals handed back — is stated
//! in the method contracts and verified against this model.

use vstd::prelude::*;

use crate::digest::{empty_state_root, Digest};
use crate::effects::{
    lemma_fold_effects_append, lookup_value, spec_fold_effects, spec_lookup, Effect,
    CHECKSUM_REGISTRY_KEY,
};
use crate::era::{era_model, EraModel, StepRequest, StepSuccess};
use crate::state::{spec_empty_root, Scratch};
use crate::types::{
    copy_results, result_model, Deploy, EraValidators, ExecutionResult, RegistryProof,
    ResultModel, StepError, WeightEntry,
};

verus! {

/// One committed global-state snapshot: its root and the write history that
/// produced it.
pub struct Snapshot {
    pub root: Digest,
    pub entries: Vec<Effect>,
}

/// Model of a committed snapshot.
#[verifier::ext_equal]
pub ghost struct SnapModel {
    pub root: Digest,
    pub entries: Seq<Effect>,
}

/// Model of a committed snapshot.
pub open spec fn snap_model(s: Snapshot) -> SnapModel {
    SnapModel { root: s.root, entries: s.entries@ }
}

/// Scripted outcome table entry: what the engine returns when asked to run
/// the deploy with this hash.
pub struct ScriptEntry {
    pub deploy_hash: Digest,
    pub outcomes: Vec<ExecutionResult>,
}

/// Model of a script entry.
#[verifier::ext_equal]
pub ghost struct ScriptModel {
    pub deploy_hash: Digest,
    pub outcomes: Seq<ResultModel>,
}

/// Model of a script entry.
pub open spec fn script_model(e: ScriptEntry) -> ScriptModel {
    ScriptModel {
        deploy_hash: e.deploy_hash,
        outcomes: e.outcomes@.map_values(|r: ExecutionResult| result_model(r)),
    }
}

/// Model of the whole engine.
#[verifier::ext_equal]
pub ghost struct EngineModel {
    pub snapshots: Seq<SnapModel>,
    pub script: Seq<ScriptModel>,
    pub step_effects: Seq<Effect>,
    pub step_fails: bool,
    pub era_validators: Seq<EraModel>,
}

/// Well-formedness of the engine model: every committed snapshot's root is
/// the fold of its write history.
pub open spec fn model_wf(m: EngineModel) -> bool {
    forall|k: int|
        0 <= k < m.snapshots.len() ==> (#[trigger] m.snapshots[k]).root == spec_fold_effects(
            spec_empty_root(),
            m.snapshots[k].entries,
        )
}

/// The snapshot committed under `root`: the most recent one wins.
pub open spec fn spec_find_snapshot(snaps: Seq<SnapModel>, root: Digest) -> Option<SnapModel>
    decreases snaps.len(),
{
    if snaps.len() == 0 {
        None
    } else if snaps.last().root == root {
        Some(snaps.last())
    } else {
        spec_find_snapshot(snaps.drop_last(), root)
    }
}

/// Whether some snapshot is committed under `root`.
pub open spec fn spec_has_root(snaps: Seq<SnapModel>, root: Digest) -> bool {
    spec_find_snapshot(snaps, root) is Some
}

/// The scripted outcomes for the deploy with hash `h`: the most recent script
/// entry wins; an unscripted deploy has no outcomes.
pub open spec fn spec_script_outcomes(script: Seq<ScriptModel>, h: Digest) -> Seq<ResultModel>
    decreases script.len(),
{
    if script.len() == 0 {
        Seq::empty()
    } else if script.last().deploy_hash == h {
        script.last().outcomes
    } else {
        spec_script_outcomes(script.drop_last(), h)
    }
}

/// A request to run one deploy against a state root at a block time.
#[derive(PartialEq, Eq, Structural, Clone, Copy, Debug)]
pub struct ExecuteRequest {
    pub state_root_hash: Digest,
    pub block_time: u64,
    pub deploy: Deploy,
    pub protocol_version: u64,
    pub proposer: u64,
}

/// The in-memory engine and store.
pub struct Engine {
    pub snapshots: Vec<Snapshot>,
    pub script: Vec<ScriptEntry>,
    pub step_effects: Vec<Effect>,
    pub step_fails: bool,
    pub era_validators: Vec<EraValidators>,
}

impl Engine {
    /// Model of the engine.
    pub open spec fn model(self) -> EngineModel {
        EngineModel {
            snapshots: self.snapshots@.map_values(|s: Snapshot| snap_model(s)),
            script: self.script@.map_values(|e: ScriptEntry| script_model(e)),
            step_effects: self.step_effects@,
            step_fails: self.step_fails,
            era_validators: self.era_validators@.map_values(|e: EraValidators| era_model(e)),
        }
    }

    /// A fresh engine: one empty committed snapshot, nothing scripted.
    pub fn new() -> (r: Engine)
        ensures
            r.model() == (EngineModel {
                snapshots: seq![SnapModel { root: spec_empty_root(), entries: Seq::empty() }],
                script: Seq::empty(),
                step_effects: Seq::empty(),
                step_fails: false,
                era_validators: Seq::empty(),
            }),
            model_wf(r.model()),
    {
        let mut snapshots: Vec<Snapshot> = Vec::new();
        snapshots.push(Snapshot { root: empty_state_root(), entries: Vec::new() });
        let r = Engine {
            snapshots,
            script: Vec::new(),
            step_effects: Vec::new(),
            step_fails: false,
            era_validators: Vec::new(),
        };
        proof {
            assert(r.model().snapshots =~= seq![
                SnapModel { root: spec_empty_root(), entries: Seq::empty() },
            ]);
            assert(r.model().script =~= Seq::<ScriptModel>::empty());
            assert(r.model().era_validators =~= Seq::<EraModel>::empty());
            assert(r.model() =~= (EngineModel {
                snapshots: seq![SnapModel { root: spec_empty_root(), entries: Seq::empty() }],
                script: Seq::empty(),
                step_effects: Seq::empty(),
                step_fails: false,
                era_validators: Seq::empty(),
            }));
        }
        r
    }

    /// Scripts the engine's outcomes for one deploy hash.
    pub fn add_script_entry(&mut self, deploy_hash: Digest, outcomes: Vec<ExecutionResult>)
        ensures
            final(self).model() == (EngineModel {
                script: old(self).model().script.push(
                    ScriptModel {
                        deploy_hash,
                        outcomes: outcomes@.map_values(|r: ExecutionResult| result_model(r)),
                    },
                ),
                ..old(self).model()
            }),
    {
        let ghost m0 = self.model();
        self.script.push(ScriptEntry { deploy_hash, outcomes });
        proof {
            assert(final(self).model().script =~= m0.script.push(
                final(self).model().script.last()));
            assert(final(self).model().snapshots =~= m0.snapshots);
            assert(final(self).model().era_validators =~= m0.era_validators);
            assert(final(self).model() =~= (EngineModel {
                script: m0.script.push(final(self).model().script.last()),
                ..m0
            }));
        }
    }

    /// Scripts the journal the era step will produce.
    pub fn set_step_effects(&mut self, effects: Vec<Effect>)
        ensures
            final(self).model() == (EngineModel {
                step_effects: effects@,
                ..old(self).model()
            }),
    {
        let ghost m0 = self.model();
        self.step_effects = effects;
        proof {
            assert(final(self).model().snapshots =~= m0.snapshots);
            assert(final(self).model().script =~= m0.script);
            assert(final(self).model().era_validators =~= m0.era_validators);
            assert(final(self).model() =~= (EngineModel { step_effects: effects@, ..m0 }));
        }
    }

    /// Scripts whether the era step fails.
    pub fn set_step_fails(&mut self, fails: bool)
        ensures
            final(self).model() == (EngineModel { step_fails: fails, ..old(self).model() }),
    {
        let ghost m0 = self.model();
        self.step_fails = fails;
        proof {
            assert(final(self).model().snapshots =~= m0.snapshots);
            assert(final(self).model().script =~= m0.script);
            assert(final(self).model().era_validators =~= m0.era_validators);
            assert(final(self).model() =~= (EngineModel { step_fails: fails, ..m0 }));
        }
    }

    /// Scripts the validator weights of one era.
    pub fn add_era_validators(&mut self, era_id: u64, weights: Vec<WeightEntry>)
        ensures
            final(self).model() == (EngineModel {
                era_validators: old(self).model().era_validators.push(
                    EraModel { era_id, weights: weights@ },
                ),
                ..old(self).model()
            }),
    {
        let ghost m0 = self.model();
        self.era_validators.push(EraValidators { era_id, weights });
        proof {
            assert(final(self).model().era_validators =~= m0.era_validators.push(
                final(self).model().era_validators.last()));
            assert(final(self).model().snapshots =~= m0.snapshots);
            assert(final(self).model().script =~= m0.script);
            assert(final(self).model() =~= (EngineModel {
                era_validators: m0.era_validators.push(
                    final(self).model().era_validators.last()),
                ..m0
            }));
        }
    }

    /// Opens a scratch overlay on the snapshot committed under `root`, or
    /// reports that no snapshot carries that root.
    pub fn open_scratch(&self, root: Digest) -> (r: Option<Scratch>)
        requires
            model_wf(self.model()),
        ensures
            match spec_find_snapshot(self.model().snapshots, root) {
                Option::None => r is None,
                Option::Some(sm) => r matches Some(s) && s.base_root == root && s.base@
                    == sm.entries && s.pending@ == Seq::<Effect>::empty() && s.current == root
                    && s.wf(),
            },
    {
        let ghost models = self.snapshots@.map_values(|s: Snapshot| snap_model(s));
        let mut best: Option<usize> = None;
        let mut i: usize = 0;
        while i < self.snapshots.len()
            invariant
                i <= self.snapshots@.len(),
                models == self.snapshots@.map_values(|s: Snapshot| snap_model(s)),
                match best {
                    Option::None => spec_find_snapshot(models.take(i as int), root) is None,
                    Option::Some(j) => j < i && self.snapshots@[j as int].root == root
                        && spec_find_snapshot(models.take(i as int), root) == Some(
                        snap_model(self.snapshots@[j as int]),
                    ),
                },
            decreases self.snapshots@.len() - i,
        {
            if self.snapshots[i].root == root {
                best = Some(i);
            }
            proof {
                assert(models.take(i + 1 as int).drop_last() =~= models.take(i as int));
                assert(models.take(i + 1 as int).last() == models[i as int]);
            }
            i = i + 1;
        }
        proof {
            assert(models.take(models.len() as int) =~= models);
        }
        match best {
            Option::None => None,
            Option::Some(j) => {
                let base = crate::effects::copy_effects(&self.snapshots[j].entries);
                proof {
                    assert(self.model().snapshots[j as int] == snap_model(
                        self.snapshots@[j as int]));
                }
                Some(
                    Scratch {
                        base_root: root,
                        base,
                        pending: Vec::new(),
                        current: root,
                    },
                )
            },
        }
    }

    /// Whether some snapshot is committed under `root`.
    pub fn has_root(&self, root: Digest) -> (r: bool)
        ensures
            r == spec_has_root(self.model().snapshots, root),
    {
        let ghost models = self.snapshots@.map_values(|s: Snapshot| snap_model(s));
        let mut found = false;
        let mut i: usize = 0;
        while i < self.snapshots.len()
            invariant
                i <= self.snapshots@.len(),
                models == self.snapshots@.map_values(|s: Snapshot| snap_model(s)),
                found == spec_has_root(models.take(i as int), root),
            decreases self.snapshots@.len() - i,
        {
            if self.snapshots[i].root == root {
                found = true;
            }
            proof {
                assert(models.take(i + 1 as int).drop_last() =~= models.take(i as int));
                assert(models.take(i + 1 as int).last() == models[i as int]);
            }
            i = i + 1;
        }
        proof {
            assert(models.take(models.len() as int) =~= models);
        }
        found
    }

    /// Runs one deploy and returns the scripted outcomes, without committing
    /// anything. The engine's contract owes exactly one outcome per deploy;
    /// whether a violation is fatal is the caller's concern.
    pub fn run_execute(&self, request: &ExecuteRequest) -> (r: Vec<ExecutionResult>)
        ensures
            r@.map_values(|x: ExecutionResult| result_model(x)) == spec_script_outcomes(
                self.model().script,
                request.deploy.hash,
            ),
    {
        let ghost models = self.script@.map_values(|e: ScriptEntry| script_model(e));
        let mut best: Option<usize> = None;
        let mut i: usize = 0;
        while i < self.script.len()
            invariant
                i <= self.script@.len(),
                models == self.script@.map_values(|e: ScriptEntry| script_model(e)),
                match best {
                    Option::None => spec_script_outcomes(models.take(i as int), request.deploy.hash)
                        == Seq::<ResultModel>::empty(),
                    Option::Some(j) => j < i && self.script@[j as int].deploy_hash
                        == request.deploy.hash && spec_script_outcomes(
                        models.take(i as int),
                        request.deploy.hash,
                    ) == script_model(self.script@[j as int]).outcomes,
                },
            decreases self.script@.len() - i,
        {
            if self.script[i].deploy_hash == request.deploy.hash {
                best = Some(i);
            }
            proof {
                assert(models.take(i + 1 as int).drop_last() =~= models.take(i as int));
                assert(models.take(i + 1 as int).last() == models[i as int]);
            }
            i = i + 1;
        }
        proof {
            assert(models.take(models.len() as int) =~= models);
        }
        match best {
            Option::None => {
                let r: Vec<ExecutionResult> = Vec::new();
                proof {
                    assert(r@.map_values(|x: ExecutionResult| result_model(x))
                        =~= Seq::<ResultModel>::empty());
                }
                r
            },
            Option::Some(j) => {
                let r = copy_results(&self.script[j].outcomes);
                proof {
                    assert(r@.map_values(|x: ExecutionResult| result_model(x)) =~= script_model(
                        self.script@[j as int]).outcomes);
                }
                r
            },
        }
    }

    /// Runs the privileged era step: commits the scripted step journal to the
    /// scratch overlay, unless the step is scripted to fail.
    pub fn run_step(&self, scratch: &mut Scratch, request: StepRequest) -> (r: Result<
        StepSuccess,
        StepError,
    >)
        requires
            old(scratch).wf(),
        ensures
            final(scratch).wf(),
            self.model().step_fails ==> (r matches Err(StepError::EngineFailure))
                && final(scratch).base_root == old(scratch).base_root && final(scratch).base@
                == old(scratch).base@ && final(scratch).pending@ == old(scratch).pending@
                && final(scratch).current == old(scratch).current,
            !self.model().step_fails ==> (r matches Ok(ss) ==> final(scratch).base_root
                == old(scratch).base_root && final(scratch).base@ == old(scratch).base@
                && final(scratch).pending@ == old(scratch).pending@ + self.model().step_effects
                && final(scratch).current == spec_fold_effects(
                old(scratch).current,
                self.model().step_effects,
            ) && ss.post_state_hash == final(scratch).current && ss.execution_journal@
                == self.model().step_effects),
            !self.model().step_fails ==> r is Ok,
    {
        if self.step_fails {
            return Err(StepError::EngineFailure);
        }
        let journal = crate::effects::copy_effects(&self.step_effects);
        let root = scratch.commit(&self.step_effects);
        Ok(StepSuccess { post_state_hash: root, execution_journal: journal })
    }

    /// Flushes a scratch overlay to durable storage: commits the overlay's
    /// full write history as a new snapshot and returns the authoritative
    /// root. The single durable write of a block's execution.
    pub fn write_scratch_to_db(&mut self, scratch: Scratch) -> (r: Digest)
        requires
            scratch.wf(),
            model_wf(old(self).model()),
        ensures
            r == scratch.current,
            final(self).model() == (EngineModel {
                snapshots: old(self).model().snapshots.push(
                    SnapModel { root: scratch.current, entries: scratch.base@ + scratch.pending@ },
                ),
                ..old(self).model()
            }),
            model_wf(final(self).model()),
    {
        let ghost m0 = self.model();
        let Scratch { base_root: _, base, pending, current } = scratch;
        let mut entries = base;
        let ghost base0 = entries@;
        let mut k: usize = 0;
        while k < pending.len()
            invariant
                k <= pending@.len(),
                entries@ == base0 + pending@.take(k as int),
            decreases pending@.len() - k,
        {
            entries.push(pending[k]);
            proof {
                assert(base0 + pending@.take(k + 1 as int) =~= (base0 + pending@.take(
                    k as int)).push(pending@[k as int]));
            }
            k = k + 1;
        }
        proof {
            assert(pending@.take(pending@.len() as int) =~= pending@);
        }
        self.snapshots.push(Snapshot { root: current, entries });
        proof {
            lemma_fold_effects_append(spec_empty_root(), base0, pending@);
            assert(final(self).model().snapshots =~= m0.snapshots.push(
                SnapModel { root: current, entries: base0 + pending@ }));
            assert(final(self).model().script =~= m0.script);
            assert(final(self).model().era_validators =~= m0.era_validators);
            assert(final(self).model() =~= (EngineModel {
                snapshots: m0.snapshots.push(
                    SnapModel { root: current, entries: base0 + pending@ },
                ),
                ..m0
            }));
            assert forall|t: int| 0 <= t < final(self).model().snapshots.len() implies (
            #[trigger] final(self).model().snapshots[t]).root == spec_fold_effects(
                spec_empty_root(),
                final(self).model().snapshots[t].entries,
            ) by {
                if t < m0.snapshots.len() {
                    assert(final(self).model().snapshots[t] == m0.snapshots[t]);
                }
            }
        }
        current
    }

    /// Returns the scripted validator-weight table, one entry per era.
    pub fn get_era_validators(&self, state_root_hash: Digest, protocol_version: u64) -> (r: Vec<
        EraValidators,
    >)
        ensures
            r@.map_values(|e: EraValidators| era_model(e)) == self.model().era_validators,
    {
        let mut out: Vec<EraValidators> = Vec::new();
        let mut i: usize = 0;
        while i < self.era_validators.len()
            invariant
                i <= self.era_validators@.len(),
                out@.len() == i,
                forall|k: int|
                    0 <= k < i ==> era_model(#[trigger] out@[k]) == era_model(
                        self.era_validators@[k],
                    ),
            decreases self.era_validators@.len() - i,
        {
            let entry = &self.era_validators[i];
            out.push(
                EraValidators { era_id: entry.era_id, weights: crate::era::copy_weights(
                    &entry.weights,
                ) },
            );
            i = i + 1;
        }
        proof {
            assert(out@.map_values(|e: EraValidators| era_model(e))
                =~= self.model().era_validators);
        }
        out
    }

    /// Fetches the inclusion witness for the checksum registry entry at a
    /// committed root: the value global state holds under the reserved key.
    pub fn get_checksum_registry_proof(&self, state_root_hash: Digest) -> (r: Option<
        RegistryProof,
    >)
        ensures
            match spec_find_snapshot(self.model().snapshots, state_root_hash) {
                Option::None => r is None,
                Option::Some(sm) => match spec_lookup(sm.entries, CHECKSUM_REGISTRY_KEY) {
                    Option::None => r is None,
                    Option::Some(v) => r == Some(
                        RegistryProof {
                            state_root: state_root_hash,
                            key: CHECKSUM_REGISTRY_KEY,
                            value: v,
                        },
                    ),
                },
            },
    {
        let ghost models = self.snapshots@.map_values(|s: Snapshot| snap_model(s));
        let mut best: Option<usize> = None;
        let mut i: usize = 0;
        while i < self.snapshots.len()
            invariant
                i <= self.snapshots@.len(),
                models == self.snapshots@.map_values(|s: Snapshot| snap_model(s)),
                match best {
                    Option::None => spec_find_snapshot(models.take(i as int), state_root_hash)
                        is None,
                    Option::Some(j) => j < i && self.snapshots@[j as int].root == state_root_hash
                        && spec_find_snapshot(models.take(i as int), state_root_hash) == Some(
                        snap_model(self.snapshots@[j as int]),
                    ),
                },
            decreases self.snapshots@.len() - i,
        {
            if self.snapshots[i].root == state_root_hash {
                best = Some(i);
            }
            proof {
                assert(models.take(i + 1 as int).drop_last() =~= models.take(i as int));
                assert(models.take(i + 1 as int).last() == models[i as int]);
            }
            i = i + 1;
        }
        proof {
            assert(models.take(models.len() as int) =~= models);
        }
        match best {
            Option::None => None,
            Option::Some(j) => {
                match lookup_value(&self.snapshots[j].entries, CHECKSUM_REGISTRY_KEY) {
                    Option::None => None,
                    Option::Some(v) => Some(
                        RegistryProof {
                            state_root: state_root_hash,
                            key: CHECKSUM_REGISTRY_KEY,
                            value: v,
                        },
                    ),
                }
            },
        }
    }
}

} // verus!

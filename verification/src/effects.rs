//! State effects: the key-value writes a deploy, the checksum registry or the
//! era step produce, and the digest and lookup semantics of a journal of such
//! writes.
//!
//! A global-state snapshot is modelled as the journal of every write that
//! produced it; its root digest is the left fold of the writes' digests, so a
//! root is a pure function of the full, ordered write history, and reading a
//! key yields the last value written under it.

use vstd::prelude::*;

use crate::digest::{combine, spec_combine, Digest};

verus! {

/// Reserved global-state key under which the checksum registry is written.
pub const CHECKSUM_REGISTRY_KEY: u64 = 0;

/// A value stored in global state.
#[derive(PartialEq, Eq, Structural, Clone, Copy, Debug)]
pub enum StoredValue {
    /// An ordinary value, as a deploy's effects would write it.
    Raw(u64),
    /// The checksum registry: the block's two audit digests.
    ChecksumRegistry {
        approvals_checksum: Digest,
        execution_results_checksum: Digest,
    },
}

/// One state effect: a write of `value` under `key`.
#[derive(PartialEq, Eq, Structural, Clone, Copy, Debug)]
pub struct Effect {
    pub key: u64,
    pub value: StoredValue,
}

/// Digest contribution of one effect.
pub open spec fn spec_effect_digest(e: Effect) -> u64 {
    match e.value {
        StoredValue::Raw(v) => spec_combine(spec_combine(1, e.key), v),
        StoredValue::ChecksumRegistry { approvals_checksum, execution_results_checksum } => {
            spec_combine(
                spec_combine(2, e.key),
                spec_combine(approvals_checksum.value, execution_results_checksum.value),
            )
        },
    }
}

/// Root digest reached from `d` after appending the writes `effects`.
pub open spec fn spec_fold_effects(d: Digest, effects: Seq<Effect>) -> Digest
    decreases effects.len(),
{
    if effects.len() == 0 {
        d
    } else {
        Digest {
            value: spec_combine(
                spec_fold_effects(d, effects.drop_last()).value,
                spec_effect_digest(effects.last()),
            ),
        }
    }
}

/// Folding a concatenation folds its parts in turn.
pub proof fn lemma_fold_effects_append(d: Digest, a: Seq<Effect>, b: Seq<Effect>)
    ensures
        spec_fold_effects(d, a + b) == spec_fold_effects(spec_fold_effects(d, a), b),
    decreases b.len(),
{
    if b.len() == 0 {
        assert(a + b =~= a);
    } else {
        lemma_fold_effects_append(d, a, b.drop_last());
        assert((a + b).drop_last() =~= a + b.drop_last());
        assert((a + b).last() == b.last());
    }
}

/// Digest contribution of one effect.
pub fn effect_digest(e: &Effect) -> (r: u64)
    ensures
        r == spec_effect_digest(*e),
{
    match e.value {
        StoredValue::Raw(v) => combine(combine(1, e.key), v),
        StoredValue::ChecksumRegistry { approvals_checksum, execution_results_checksum } => {
            combine(
                combine(2, e.key),
                combine(approvals_checksum.value, execution_results_checksum.value),
            )
        },
    }
}

/// The value a journal of writes holds under `key`: the last write wins.
pub open spec fn spec_lookup(entries: Seq<Effect>, key: u64) -> Option<StoredValue>
    decreases entries.len(),
{
    if entries.len() == 0 {
        None
    } else if entries.last().key == key {
        Some(entries.last().value)
    } else {
        spec_lookup(entries.drop_last(), key)
    }
}

/// A lookup in a concatenation prefers the later part.
pub proof fn lemma_lookup_append(a: Seq<Effect>, b: Seq<Effect>, key: u64)
    ensures
        spec_lookup(a + b, key) == if spec_lookup(b, key) is Some {
            spec_lookup(b, key)
        } else {
            spec_lookup(a, key)
        },
    decreases b.len(),
{
    if b.len() == 0 {
        assert(a + b =~= a);
    } else {
        lemma_lookup_append(a, b.drop_last(), key);
        assert((a + b).drop_last() =~= a + b.drop_last());
        assert((a + b).last() == b.last());
    }
}

/// Reads the value under `key` out of a journal of writes.
pub fn lookup_value(entries: &Vec<Effect>, key: u64) -> (r: Option<StoredValue>)
    ensures
        r == spec_lookup(entries@, key),
{
    let mut found: Option<StoredValue> = None;
    let mut i: usize = 0;
    while i < entries.len()
        invariant
            i <= entries@.len(),
            found == spec_lookup(entries@.take(i as int), key),
        decreases entries@.len() - i,
    {
        if entries[i].key == key {
            found = Some(entries[i].value);
        }
        proof {
            assert(entries@.take(i + 1 as int).drop_last() =~= entries@.take(i as int));
            assert(entries@.take(i + 1 as int).last() == entries@[i as int]);
        }
        i = i + 1;
    }
    proof {
        assert(entries@.take(entries@.len() as int) =~= entries@);
    }
    found
}

/// Copies a journal of writes.
pub fn copy_effects(v: &Vec<Effect>) -> (r: Vec<Effect>)
    ensures
        r@ == v@,
{
    let mut out: Vec<Effect> = Vec::new();
    let mut i: usize = 0;
    while i < v.len()
        invariant
            i <= v@.len(),
            out@ == v@.take(i as int),
        decreases v@.len() - i,
    {
        out.push(v[i]);
        proof {
            assert(v@.take(i + 1 as int) =~= v@.take(i as int).push(v@[i as int]));
        }
        i = i + 1;
    }
    proof {
        assert(v@.take(v@.len() as int) =~= v@);
    }
    out
}

} // verus!

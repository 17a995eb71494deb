//! The scratch overlay: an in-memory buffer of one block's state writes.
//!
//! The overlay is opened on one committed snapshot, buffers every write of
//! the in-flight block in commit order, and threads the running root digest
//! forward with each commit. It is exclusively owned by one block-execution
//! call: constructed at entry, flushed to durable storage (or dropped whole)
//! at exit, so a block's effects become durable atomically or not at all.

use vstd::prelude::*;

use crate::digest::{combine, Digest, EMPTY_STATE_DIGEST};
use crate::effects::{effect_digest, lemma_fold_effects_append, spec_fold_effects, Effect};

verus! {

/// Digest of the empty global state.
pub open spec fn spec_empty_root() -> Digest {
    Digest { value: EMPTY_STATE_DIGEST }
}

/// An in-memory overlay over one committed snapshot.
pub struct Scratch {
    /// Root of the snapshot the overlay was opened on.
    pub base_root: Digest,
    /// Write history of that snapshot, read through by the overlay.
    pub base: Vec<Effect>,
    /// Writes buffered by this overlay, in commit order.
    pub pending: Vec<Effect>,
    /// Root digest after the pending writes.
    pub current: Digest,
}

impl Scratch {
    /// Well-formedness: the recorded roots are the folds of the histories
    /// they stand for.
    pub open spec fn wf(self) -> bool {
        &&& self.base_root == spec_fold_effects(spec_empty_root(), self.base@)
        &&& self.current == spec_fold_effects(self.base_root, self.pending@)
    }

    /// Buffers `effects` in order and returns the new root digest.
    pub fn commit(&mut self, effects: &Vec<Effect>) -> (r: Digest)
        requires
            old(self).wf(),
        ensures
            final(self).wf(),
            final(self).base_root == old(self).base_root,
            final(self).base@ == old(self).base@,
            final(self).pending@ == old(self).pending@ + effects@,
            final(self).current == spec_fold_effects(old(self).current, effects@),
            r == final(self).current,
    {
        let ghost start = self.current;
        let ghost pending0 = self.pending@;
        let mut i: usize = 0;
        while i < effects.len()
            invariant
                i <= effects@.len(),
                self.base_root == old(self).base_root,
                self.base@ == old(self).base@,
                self.pending@ == pending0 + effects@.take(i as int),
                self.current == spec_fold_effects(start, effects@.take(i as int)),
                start == spec_fold_effects(self.base_root, pending0),
            decreases effects@.len() - i,
        {
            let e = effects[i];
            self.pending.push(e);
            self.current = Digest { value: combine(self.current.value, effect_digest(&e)) };
            proof {
                assert(effects@.take(i + 1 as int).drop_last() =~= effects@.take(i as int));
                assert(effects@.take(i + 1 as int).last() == effects@[i as int]);
                assert(pending0 + effects@.take(i + 1 as int)
                    =~= (pending0 + effects@.take(i as int)).push(effects@[i as int]));
                lemma_fold_effects_append(self.base_root, pending0, effects@.take(i + 1 as int));
                lemma_fold_effects_append(start, effects@.take(i as int), seq![effects@[i as int]]);
                assert(effects@.take(i + 1 as int)
                    =~= effects@.take(i as int) + seq![effects@[i as int]]);
            }
            i = i + 1;
        }
        proof {
            assert(effects@.take(effects@.len() as int) =~= effects@);
            lemma_fold_effects_append(self.base_root, pending0, effects@);
        }
        self.current
    }
}

} // verus!

//! State-root and checksum digests.
//!
//! A `Digest` identifies a point-in-time global-state snapshot or a checksum
//! over an ordered collection. Real nodes use a cryptographic hash here; the
//! pipeline itself only ever combines, threads and compares digests, so the
//! model uses a sequential 64-bit mixing function. What the pipeline relies
//! on — and what is specified — is that combining is a pure function of its
//! operands, so every digest in the pipeline is a deterministic function of
//! the data it commits to.

use vstd::prelude::*;

verus! {

/// Multiplier of the polynomial mixing step.
pub const DIGEST_MULTIPLIER: u64 = 0x100000001b3;

/// Digest of the empty global state.
pub const EMPTY_STATE_DIGEST: u64 = 0xcbf29ce484222325;

/// A content digest: of a state snapshot, a deploy, or a checksum.
#[derive(PartialEq, Eq, Structural, Clone, Copy, Debug)]
pub struct Digest {
    pub value: u64,
}

/// One mixing step: folds `b` into the running digest `a`.
pub open spec fn spec_combine(a: u64, b: u64) -> u64 {
    ((a as int * DIGEST_MULTIPLIER as int + b as int) % 0x1_0000_0000_0000_0000) as u64
}

/// Folds `b` into the running digest `a`.
pub fn combine(a: u64, b: u64) -> (r: u64)
    ensures
        r == spec_combine(a, b),
{
    proof {
        assert((a as u128) * (DIGEST_MULTIPLIER as u128) <= 0xffff_ffff_ffff_ffffu128
            * (DIGEST_MULTIPLIER as u128)) by (nonlinear_arith)
            requires
                a as u128 <= 0xffff_ffff_ffff_ffffu128,
        ;
    }
    let wide: u128 = (a as u128) * (DIGEST_MULTIPLIER as u128) + (b as u128);
    (wide % 0x1_0000_0000_0000_0000u128) as u64
}

/// Digest of the empty global state.
pub fn empty_state_root() -> (r: Digest)
    ensures
        r == (Digest { value: EMPTY_STATE_DIGEST }),
{
    Digest { value: EMPTY_STATE_DIGEST }
}

} // verus!

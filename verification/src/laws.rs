//! Session-wide laws, stated over the same spec functions that the
//! executable contracts use and proved once and for all: score
//! bookkeeping over whole sequences of rounds, the background cycle over
//! whole runs of frames, and the determinism of the placement stream.

use vstd::arithmetic::div_mod::{
    lemma_add_mod_noop, lemma_fundamental_div_mod, lemma_fundamental_div_mod_converse,
    lemma_small_mod,
};
use vstd::prelude::*;

use crate::field::Position;
use crate::game::{bg_after, commit_high, frame_after, FRAMES_PER_BG};
use crate::rng::{placed, xs_next};

verus! {

/// The high score after a whole sequence of committed round scores has
/// been absorbed, one round at a time.
pub open spec fn high_after_rounds(high: u32, scores: Seq<u32>) -> u32
    decreases scores.len(),
{
    if scores.len() == 0 {
        high
    } else {
        commit_high(high_after_rounds(high, scores.drop_last()), scores.last())
    }
}

/// Committed rounds never lower the high score below where it started:
/// after any sequence of committed scores it is at least its old value.
pub proof fn lemma_high_score_from_start(high: u32, scores: Seq<u32>)
    ensures
        high_after_rounds(high, scores) >= high,
    decreases scores.len(),
{
    if scores.len() > 0 {
        lemma_high_score_from_start(high, scores.drop_last());
    }
}

/// The high score is monotone round by round: committing one more score
/// never lowers it, and it comes out no smaller than that score.
pub proof fn lemma_high_score_monotone(high: u32, scores: Seq<u32>, next: u32)
    ensures
        high_after_rounds(high, scores.push(next)) >= high_after_rounds(high, scores),
        high_after_rounds(high, scores.push(next)) >= next,
{
    assert(scores.push(next).drop_last() =~= scores);
    assert(scores.push(next).last() == next);
}

/// The frame counter and background index after `k` frames of a fresh
/// round, stepped one frame at a time.
pub open spec fn cycle_after(k: nat, num_bgs: usize) -> (u32, usize)
    decreases k,
{
    if k == 0 {
        (0u32, 0usize)
    } else {
        let prev = cycle_after((k - 1) as nat, num_bgs);
        (frame_after(prev.0), bg_after(prev.0, prev.1, num_bgs))
    }
}

/// The background index cycles through [0, num_bgs): after `k` frames it
/// has advanced exactly once per FRAMES_PER_BG frames, wrapped by
/// modulo, while the frame counter holds the remainder.
pub proof fn lemma_bg_cycle(k: nat, num_bgs: usize)
    requires
        num_bgs >= 1,
    ensures
        cycle_after(k, num_bgs).0 == k % (FRAMES_PER_BG as nat),
        cycle_after(k, num_bgs).1 == (k / (FRAMES_PER_BG as nat)) % (num_bgs as nat),
    decreases k,
{
    let p = FRAMES_PER_BG as int;
    let n = num_bgs as int;
    if k == 0 {
        lemma_small_mod(0, num_bgs as nat);
    } else {
        lemma_bg_cycle((k - 1) as nat, num_bgs);
        let f = (k - 1) % p;
        let q = (k - 1) / p;
        lemma_fundamental_div_mod(k - 1, p);
        if f + 1 == p {
            lemma_fundamental_div_mod_converse(k as int, p, q + 1, 0);
            lemma_add_mod_noop(q, 1, n);
            if n > 1 {
                lemma_small_mod(1, num_bgs as nat);
            }
        } else {
            lemma_fundamental_div_mod_converse(k as int, p, q, f + 1);
        }
    }
}

/// The first `k` item placements drawn from the generator state `s`;
/// each placement consumes two stream words.
pub open spec fn placements(s: (u64, u64), k: nat) -> Seq<Position>
    decreases k,
{
    if k == 0 {
        Seq::<Position>::empty()
    } else {
        seq![placed(s)] + placements(xs_next(xs_next(s)), (k - 1) as nat)
    }
}

/// The placement stream is deterministic: it is a function of the
/// generator state alone, so two sessions seeded with the same pair of
/// words place their items identically, however many draws are taken.
pub proof fn lemma_placements_deterministic(a: (u64, u64), b: (u64, u64), k: nat)
    requires
        a == b,
    ensures
        placements(a, k) == placements(b, k),
{
}

} // verus!

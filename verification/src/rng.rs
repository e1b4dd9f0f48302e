//! Pseudo-random item placement, drawn from a xorshift128+ generator of
//! the `random` crate. The generator is seeded once per session and never
//! re-seeded, so all placements of a session come from one stream.
//!
//! The stream itself is modelled exactly: `xs_next` and `xs_output` state
//! the step that the outside generator takes, and every draw is pinned to
//! them, so a placement is a function of the seed pair alone.

use vstd::arithmetic::div_mod::lemma_multiply_divide_lt;
use vstd::prelude::*;

use crate::field::{Position, X_SPAN, Y_SPAN};

verus! {

/// Declares the outside generator type, so that it can stand in fields
/// and signatures of this crate.
#[verifier::external_type_specification]
#[verifier::external_body]
pub struct ExXorshift128Plus(random::Xorshift128Plus);

/// The 128-bit state that a generator holds, as its two 64-bit words.
pub uninterp spec fn gen_state(g: random::Xorshift128Plus) -> (u64, u64);

/// The scrambled word of one xorshift128+ step: the first state word
/// mixed by two shifted xors with itself and one with the second word.
pub open spec fn xs_scramble(s0: u64, s1: u64) -> u64 {
    let a = s0 ^ (s0 << 23);
    let b = a ^ (a >> 17);
    b ^ s1 ^ (s1 >> 26)
}

/// The generator state after one step: the second word moves first, the
/// scrambled word takes its place.
pub open spec fn xs_next(s: (u64, u64)) -> (u64, u64) {
    (s.1, xs_scramble(s.0, s.1))
}

/// The word one step hands out: the scrambled word plus the second state
/// word, modulo 2^64.
pub open spec fn xs_output(s: (u64, u64)) -> u64 {
    ((xs_scramble(s.0, s.1) + s.1) % 0x10000000000000000) as u64
}

/// One drawn word scaled into [0, span) field units and truncated to
/// whole subunits: the word is read as the fraction word / 2^64 of the
/// span, so the result is (word * span) / 2^48 subunits.
pub open spec fn scaled(u: u64, span: u32) -> u32 {
    ((u * span) / 0x1000000000000) as u32
}

/// The position placed from the generator state `s`: x from the first
/// drawn word scaled by the playable width, y from the second drawn word
/// scaled by the playable height.
pub open spec fn placed(s: (u64, u64)) -> Position {
    Position {
        x: scaled(xs_output(s), X_SPAN),
        y: scaled(xs_output(xs_next(s)), Y_SPAN),
    }
}

/// Relies on random::Xorshift128Plus::new, which stores the two given
/// words as the generator state and asserts that they are not both zero.
#[verifier::external_body]
pub(crate) fn seeded_generator(s1: u64, s2: u64) -> (g: random::Xorshift128Plus)
    requires
        s1 != 0 || s2 != 0,
    ensures
        gen_state(g) == (s1, s2),
{
    random::Xorshift128Plus::new([s1, s2])
}

/// Relies on random::Source::read_u64 for Xorshift128Plus, which applies
/// one xorshift128+ step to the two state words and hands out the sum of
/// the scrambled word and the elder word, modulo 2^64.
#[verifier::external_body]
fn draw_word(g: &mut random::Xorshift128Plus) -> (r: u64)
    ensures
        r == xs_output(gen_state(*old(g))),
        gen_state(*final(g)) == xs_next(gen_state(*old(g))),
{
    random::Source::read_u64(g)
}

/// Scale one drawn word into [0, span) field units, in subunits.
fn scale_coord(u: u64, span: u32) -> (r: u32)
    requires
        1 <= span <= 65535,
    ensures
        r == scaled(u, span),
        r < span * 65536,
{
    proof {
        assert(u * span < span * 0x10000000000000000) by (nonlinear_arith)
            requires
                u <= 0xFFFFFFFFFFFFFFFFu64,
                1 <= span,
        ;
    }
    let wide: u128 = (u as u128) * (span as u128);
    let q: u128 = wide / 0x1000000000000;
    proof {
        assert(span * 0x10000000000000000 == 0x1000000000000 * (span * 65536))
            by (nonlinear_arith);
        lemma_multiply_divide_lt(u * span, 0x1000000000000, span * 65536);
    }
    q as u32
}

/// Draw a fresh item position from the generator: two words leave the
/// stream, the first placing x and the second placing y, each scaled to
/// the playable rectangle. The result and the state left behind are
/// functions of the state found, and nothing else.
pub fn new_position(generator: &mut random::Xorshift128Plus) -> (p: Position)
    ensures
        p == placed(gen_state(*old(generator))),
        gen_state(*final(generator)) == xs_next(xs_next(gen_state(*old(generator)))),
        p.wf(),
{
    let ux: u64 = draw_word(generator);
    let uy: u64 = draw_word(generator);
    let x: u32 = scale_coord(ux, X_SPAN);
    let y: u32 = scale_coord(uy, Y_SPAN);
    Position { x, y }
}

} // verus!

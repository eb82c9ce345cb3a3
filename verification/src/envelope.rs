//! The gain envelope: instant attack, geometric release.
//!
//! All values are binary64 bit patterns. The quotient of threshold and level,
//! and the product of gain and decay factor, are computed by the caller; what
//! is decided here is which of them becomes the gain, and how it is clamped.

use crate::ieee::{check_zero, is_nan, is_zero, less_than, lt, ONE, ZERO};
use vstd::prelude::*;

verus! {

/// What the caller has measured and computed for one chunk, after the chunk has
/// gone into the window.
#[derive(Clone, Copy, Debug)]
pub struct Measurement {
    /// The RMS level of the window.
    pub rms: u64,
    /// The threshold voltage ratio divided by `rms`.
    pub ratio: u64,
    /// The current gain times the decay factor of one chunk.
    pub released: u64,
}

/// `min(1.0, x)`: `x` where it is below one, and one otherwise, in particular
/// for a NaN.
pub open spec fn spec_clamp_to_unity(x: u64) -> u64 {
    if lt(x, ONE) {
        x
    } else {
        ONE
    }
}

/// The gain that would hold the level `rms` at the threshold, capped at one.
/// `ratio` is the threshold divided by `rms`; silence asks for no limiting,
/// whatever that quotient came out as.
pub open spec fn spec_candidate_gain(rms: u64, ratio: u64) -> u64 {
    if is_zero(rms) {
        ONE
    } else {
        spec_clamp_to_unity(ratio)
    }
}

/// The gain of the next chunk. A candidate below the current gain takes over at
/// once; otherwise the gain recovers to `released`, the current gain times the
/// decay factor, and never past one.
pub open spec fn spec_next_gain(current: u64, candidate: u64, released: u64) -> u64 {
    if lt(candidate, current) {
        candidate
    } else {
        spec_clamp_to_unity(released)
    }
}

/// The gain after one chunk with the measurement `m`.
pub open spec fn gain_after(current: u64, m: Measurement) -> u64 {
    spec_next_gain(current, spec_candidate_gain(m.rms, m.ratio), m.released)
}

/// The gain after a run of chunks, one measurement each.
pub open spec fn gain_after_run(start: u64, run: Seq<Measurement>) -> u64
    decreases run.len(),
{
    if run.len() == 0 {
        start
    } else {
        gain_after(gain_after_run(start, run.drop_last()), run.last())
    }
}

/// `step` applied `n` times to `x`.
pub open spec fn iterate(step: spec_fn(u64) -> u64, n: nat, x: u64) -> u64
    decreases n,
{
    if n == 0 {
        x
    } else {
        step(iterate(step, (n - 1) as nat, x))
    }
}

/// A gain in `(0.0, 1.0]`.
pub open spec fn gain_in_range(gain: u64) -> bool {
    lt(ZERO, gain) && !lt(ONE, gain)
}

/// A value above zero, or a NaN, which the clamp turns into one.
pub open spec fn positive_or_nan(x: u64) -> bool {
    lt(ZERO, x) || is_nan(x)
}

/// A measurement whose quotient and product are above zero (or NaN), as they
/// are unless a factor is zero, the level is infinite or the arithmetic
/// underflows.
pub open spec fn measurement_positive(m: Measurement) -> bool {
    positive_or_nan(m.ratio) && positive_or_nan(m.released)
}

/// Whether what the measurement `m` makes the gain is above zero: the quotient
/// where the gain attacks, the product (or a NaN, which becomes one) where it
/// releases.
pub open spec fn update_stays_positive(current: u64, m: Measurement) -> bool {
    if lt(spec_candidate_gain(m.rms, m.ratio), current) {
        lt(ZERO, m.ratio)
    } else {
        positive_or_nan(m.released)
    }
}

/// Whether a gain attenuates at all.
pub open spec fn spec_is_limiting(gain: u64) -> bool {
    lt(gain, ONE)
}

/// Computes `min(1.0, x)`.
pub fn clamp_to_unity(x: u64) -> (r: u64)
    ensures
        r == spec_clamp_to_unity(x),
{
    if less_than(x, ONE) {
        x
    } else {
        ONE
    }
}

/// Computes the candidate gain for a level and the quotient that goes with it.
pub fn candidate_gain(rms: u64, ratio: u64) -> (gain: u64)
    ensures
        gain == spec_candidate_gain(rms, ratio),
{
    if check_zero(rms) {
        ONE
    } else {
        clamp_to_unity(ratio)
    }
}

/// Decides between attack and release.
pub fn next_gain(current: u64, candidate: u64, released: u64) -> (gain: u64)
    ensures
        gain == spec_next_gain(current, candidate, released),
{
    if less_than(candidate, current) {
        candidate
    } else {
        clamp_to_unity(released)
    }
}

/// Decides whether a gain attenuates.
pub fn is_limiting(gain: u64) -> (r: bool)
    ensures
        r == spec_is_limiting(gain),
{
    less_than(gain, ONE)
}

/// The gain never leaves `(0.0, 1.0]`, unless a quotient or product that is
/// not above zero becomes the gain: from a gain in that range, a measurement
/// leads to a gain in that range exactly when what it makes the gain is above
/// zero. A quotient and a product that are both above zero (or NaN) are enough.
pub proof fn lemma_gain_stays_in_range(current: u64, m: Measurement)
    requires
        gain_in_range(current),
    ensures
        gain_in_range(gain_after(current, m)) <==> update_stays_positive(current, m),
        measurement_positive(m) ==> update_stays_positive(current, m),
{
}

/// The same over any number of chunks.
pub proof fn lemma_run_stays_in_range(start: u64, run: Seq<Measurement>)
    requires
        gain_in_range(start),
        forall|i: int|
            0 <= i < run.len() ==> update_stays_positive(
                gain_after_run(start, run.take(i)),
                #[trigger] run[i],
            ),
    ensures
        gain_in_range(gain_after_run(start, run)),
    decreases run.len(),
{
    if run.len() > 0 {
        let earlier = run.drop_last();
        assert forall|i: int| 0 <= i < earlier.len() implies update_stays_positive(
            gain_after_run(start, earlier.take(i)),
            #[trigger] earlier[i],
        ) by {
            assert(earlier.take(i) =~= run.take(i));
        }
        lemma_run_stays_in_range(start, earlier);
        lemma_gain_stays_in_range(gain_after_run(start, earlier), run.last());
    }
}

/// Silence never attacks: on a level of zero the gain takes the release step.
/// So the gain falls exactly when the product handed in is below the gain, as
/// it is only with a decay factor below one; otherwise the gain does not fall
/// and stays a finite value in `(0.0, 1.0]`.
pub proof fn lemma_silence_never_reduces_gain(current: u64, m: Measurement)
    requires
        gain_in_range(current),
        is_zero(m.rms),
    ensures
        gain_after(current, m) == spec_clamp_to_unity(m.released),
        lt(gain_after(current, m), current) <==> lt(m.released, current),
        !lt(m.released, current) ==> gain_in_range(gain_after(current, m)),
{
}

/// The same over any number of chunks of silence: while each product is not
/// below the gain it was formed from, the gain after the run is not below the
/// gain before it, and it is in `(0.0, 1.0]`.
pub proof fn lemma_silent_run_never_reduces_gain(start: u64, run: Seq<Measurement>)
    requires
        gain_in_range(start),
        forall|i: int| 0 <= i < run.len() ==> is_zero(#[trigger] run[i].rms),
        forall|i: int|
            0 <= i < run.len() ==> !lt(
                (#[trigger] run[i]).released,
                gain_after_run(start, run.take(i)),
            ),
    ensures
        !lt(gain_after_run(start, run), start),
        gain_in_range(gain_after_run(start, run)),
    decreases run.len(),
{
    if run.len() > 0 {
        let earlier = run.drop_last();
        assert forall|i: int| 0 <= i < earlier.len() implies !lt(
            (#[trigger] earlier[i]).released,
            gain_after_run(start, earlier.take(i)),
        ) by {
            assert(earlier.take(i) =~= run.take(i));
        }
        lemma_silent_run_never_reduces_gain(start, earlier);
        lemma_silence_never_reduces_gain(gain_after_run(start, earlier), run.last());
    }
}

/// At the boundary nothing is limited: a level equal to the threshold gives the
/// quotient one, and the candidate gain is one.
pub proof fn lemma_level_at_threshold_is_not_limited(rms: u64)
    ensures
        spec_candidate_gain(rms, ONE) == ONE,
{
}

/// Attack is instant and exact: a quotient below one, on a level that is not
/// zero, is the candidate gain as it stands, and it becomes the gain as soon as
/// it is below the current one.
pub proof fn lemma_attack_is_exact(current: u64, m: Measurement)
    requires
        !is_zero(m.rms),
        lt(m.ratio, ONE),
    ensures
        spec_candidate_gain(m.rms, m.ratio) == m.ratio,
        lt(m.ratio, current) ==> gain_after(current, m) == m.ratio,
{
}

/// Release is one multiplicative step: when the level is not above the
/// threshold (the quotient is not below one), a gain that is not above one
/// moves to the product handed in, clamped at one.
pub proof fn lemma_release_step(current: u64, m: Measurement)
    requires
        !lt(ONE, current),
        !lt(m.ratio, ONE),
    ensures
        gain_after(current, m) == spec_clamp_to_unity(m.released),
        !lt(ONE, gain_after(current, m)),
{
}

/// Release is geometric. Let `step` be the multiplication by the decay factor,
/// and let the factor be at least one, so that what is not below one is not
/// below one afterwards. Over a run of chunks under the threshold, each with
/// the product formed from the gain before it, the gain is multiplied by the
/// factor once per chunk and clamped once at the end: it is
/// `min(1.0, start * decay * .. * decay)`.
pub proof fn lemma_release_is_geometric(
    start: u64,
    run: Seq<Measurement>,
    step: spec_fn(u64) -> u64,
)
    requires
        gain_in_range(start),
        forall|i: int| 0 <= i < run.len() ==> !lt((#[trigger] run[i]).ratio, ONE),
        forall|i: int|
            0 <= i < run.len() ==> (#[trigger] run[i]).released == step(
                gain_after_run(start, run.take(i)),
            ),
        forall|x: u64| !lt(x, ONE) ==> !lt(#[trigger] step(x), ONE),
    ensures
        gain_after_run(start, run) == spec_clamp_to_unity(iterate(step, run.len(), start)),
    decreases run.len(),
{
    if run.len() > 0 {
        let earlier = run.drop_last();
        assert forall|i: int| 0 <= i < earlier.len() implies (#[trigger] earlier[i]).released
            == step(gain_after_run(start, earlier.take(i))) by {
            assert(earlier.take(i) =~= run.take(i));
        }
        lemma_release_is_geometric(start, earlier, step);
        lemma_release_step(gain_after_run(start, earlier), run.last());
    }
}

} // verus!

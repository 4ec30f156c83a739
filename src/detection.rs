use vstd::prelude::*;
use vstd::set_lib::{lemma_int_range, set_int_range};

use crate::config::{SystemConfig, PROBABILITY_SCALE};
use crate::loudness::Loudness;

verus! {

/// The detector's decision. A draw `d` stands for a uniform real in
/// `[d, d + 1) / PROBABILITY_SCALE`; that real lies above the suppression
/// probability `fp_rate / PROBABILITY_SCALE` exactly when `d >= fp_rate`
/// (but for the single boundary point). So a crossing of the threshold is
/// suppressed with probability `fp_rate / PROBABILITY_SCALE`.
pub open spec fn raises(loudness: Loudness, config: SystemConfig, draw: int) -> bool {
    loudness.above(config.threshold_level as int) && draw >= config.fp_rate
}

/// Decides whether a batch of the given loudness raises an alert, for one
/// draw of the dampening randomness in `0..PROBABILITY_SCALE`.
pub fn evaluate(loudness: &Loudness, config: &SystemConfig, draw: u32) -> (r: bool)
    ensures
        r == raises(*loudness, *config, draw as int),
{
    loudness.exceeds(config.threshold_level) && draw >= config.fp_rate
}

/// Relies on rand's `thread_rng` and `Rng::gen_range`: a draw from the
/// half-open range `0..PROBABILITY_SCALE`, which is not empty, so the call
/// does not panic.
#[verifier::external_body]
pub(crate) fn random_draw() -> (r: u32)
    ensures
        r < PROBABILITY_SCALE,
{
    rand::Rng::gen_range(&mut rand::thread_rng(), 0..PROBABILITY_SCALE)
}

/// A batch at or below the threshold never raises, whatever the draw.
pub proof fn lemma_quiet_never_raises(loudness: Loudness, config: SystemConfig, draw: int)
    requires
        !loudness.above(config.threshold_level as int),
    ensures
        !raises(loudness, config, draw),
{
}

/// The draws that raise an alert for a batch above the threshold.
pub open spec fn raising_draws(loudness: Loudness, config: SystemConfig) -> Set<int> {
    Set::new(|d: int| 0 <= d < PROBABILITY_SCALE && raises(loudness, config, d))
}

/// Above the threshold, exactly `PROBABILITY_SCALE - fp_rate` of the
/// `PROBABILITY_SCALE` equally likely draws raise: the probability of raising
/// is `1 - fp_rate / PROBABILITY_SCALE`.
pub proof fn lemma_raise_probability(loudness: Loudness, config: SystemConfig)
    requires
        config.valid(),
        loudness.above(config.threshold_level as int),
    ensures
        raising_draws(loudness, config).finite(),
        raising_draws(loudness, config).len() == PROBABILITY_SCALE - config.fp_rate,
{
    assert(raising_draws(loudness, config) =~= set_int_range(
        config.fp_rate as int,
        PROBABILITY_SCALE as int,
    ));
    lemma_int_range(config.fp_rate as int, PROBABILITY_SCALE as int);
}

} // verus!

//! Ambient-noise alert core: loudness estimation over sample batches, a
//! threshold detector with probabilistic false-positive dampening, a cool-down
//! debouncer and the plan of alert channels to fan out to.
//!
//! Amplitudes are fixed-point integers in millionths of full scale, times are
//! milliseconds of a monotonic session clock, and probabilities are parts per
//! million.

mod config;
mod loudness;
mod detection;
mod guardian;
mod health;

pub use config::{
    default_alert_radius, default_danger_sounds, default_false_positive_rate, default_threshold,
    SystemConfig, FULL_SCALE, PROBABILITY_SCALE,
};
pub use loudness::{abs_of, estimate, lemma_constant_batch, mean_above, sum_abs, Loudness};
pub use detection::{
    evaluate, lemma_quiet_never_raises, lemma_raise_probability, raises, raising_draws,
};
pub use guardian::{
    admits, after_batch, after_dispatch, armed, debounced, dispatch_plan, failed_of, loudness_of,
    lemma_debounce_once_per_window, lemma_dispatch_independence, lemma_one_dispatch_per_window,
    AlertChannel, AudioGuardian, ChannelResult, COOL_DOWN_MS,
};
pub use health::{memory_megabytes, HEARTBEAT_PERIOD_MS, MEGABYTE, QUEUE_DEPTH};

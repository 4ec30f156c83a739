use vstd::prelude::*;

verus! {

/// One full-scale amplitude, in the fixed-point unit of samples and levels.
pub const FULL_SCALE: u32 = 1_000_000;

/// The probability 1, in the fixed-point unit of probabilities.
pub const PROBABILITY_SCALE: u32 = 1_000_000;

/// Settings of a monitoring session, fixed for its lifetime.
pub struct SystemConfig {
    /// Mean absolute amplitude (millionths of full scale) that a batch must
    /// exceed to count as loud. A loudness threshold of `d` decibels relative
    /// to full scale is the level `10^(d/20) * FULL_SCALE`; the logarithm is
    /// increasing, so comparing levels orders batches as comparing decibels.
    pub threshold_level: u64,
    /// Labels of the recognised danger sound categories. Declared for a
    /// classifier; loudness detection does not read them.
    pub danger_patterns: Vec<String>,
    /// Radius handed to the notification transport, in hundredths of a mile.
    pub alert_radius_centimiles: u32,
    /// Probability (parts per million) of suppressing a threshold crossing.
    pub fp_rate: u32,
}

impl SystemConfig {
    /// The suppression probability is at most one.
    pub open spec fn valid(&self) -> bool {
        self.fp_rate <= PROBABILITY_SCALE
    }
}

/// The level of 85 dB relative to full scale: `10^(85/20)` full scales.
pub fn default_threshold() -> (r: u64)
    ensures
        r == 17_782_794_100,
{
    17_782_794_100
}

/// Five miles.
pub fn default_alert_radius() -> (r: u32)
    ensures
        r == 500,
{
    500
}

/// A suppression probability of 5%.
pub fn default_false_positive_rate() -> (r: u32)
    ensures
        r == 50_000,
{
    50_000
}

/// The spec-level labels of the default danger sound categories.
pub open spec fn default_danger_labels() -> Seq<Seq<char>> {
    seq!["gunshot"@, "glass_break"@, "scream"@]
}

/// The default danger sound categories: gunshot, glass break and scream.
pub fn default_danger_sounds() -> (r: Vec<String>)
    ensures
        r@.map_values(|s: String| s@) == default_danger_labels(),
{
    let mut r: Vec<String> = Vec::new();
    r.push("gunshot".to_string());
    r.push("glass_break".to_string());
    r.push("scream".to_string());
    proof {
        assert(r@.map_values(|s: String| s@) =~= default_danger_labels());
    }
    r
}

impl Default for SystemConfig {
    fn default() -> (r: Self)
        ensures
            r.threshold_level == 17_782_794_100,
            r.danger_patterns@.map_values(|s: String| s@) == default_danger_labels(),
            r.alert_radius_centimiles == 500,
            r.fp_rate == 50_000,
    {
        SystemConfig {
            threshold_level: default_threshold(),
            danger_patterns: default_danger_sounds(),
            alert_radius_centimiles: default_alert_radius(),
            fp_rate: default_false_positive_rate(),
        }
    }
}

} // verus!

use loonar_screech::{
    default_alert_radius, default_danger_sounds, default_false_positive_rate, default_threshold,
    estimate, evaluate, memory_megabytes, AlertChannel, AudioGuardian, ChannelResult, Loudness,
    SystemConfig, COOL_DOWN_MS, FULL_SCALE, PROBABILITY_SCALE,
};

/// 10^(-3/20) of full scale: the level of -3 dB.
const MINUS_3_DB: u64 = 707_946;
/// 10^(80/20) of full scale: the level of 80 dB.
const PLUS_80_DB: u64 = 10_000_000_000;

fn config(threshold_level: u64, fp_rate: u32) -> SystemConfig {
    SystemConfig {
        threshold_level,
        danger_patterns: default_danger_sounds(),
        alert_radius_centimiles: 500,
        fp_rate,
    }
}

#[test]
fn constant_batch_has_its_amplitude_as_mean() {
    let batch = vec![500_000i32; 8];
    let l = estimate(&batch);
    assert_eq!(l.total, 4_000_000);
    assert_eq!(l.samples, 8);
    assert!(l.exceeds(499_999));
    assert!(!l.exceeds(500_000));
    let neg = vec![-250_000i32; 4];
    let l = estimate(&neg);
    assert_eq!(l.total, 1_000_000);
    assert!(l.exceeds(249_999));
    assert!(!l.exceeds(250_000));
}

#[test]
fn mixed_batch_sums_absolute_values() {
    let batch = vec![100, -300, 0, 1_000_000, -1_000_000, i32::MIN];
    let l = estimate(&batch);
    assert_eq!(l.total, 100 + 300 + 2_000_000 + 2_147_483_648u128);
    assert_eq!(l.samples, 6);
}

#[test]
fn silence_sits_at_the_floor() {
    let zeros = vec![0i32; 16];
    let l = estimate(&zeros);
    assert_eq!(l.total, 0);
    assert!(!l.exceeds(0));
    let empty: Vec<i32> = Vec::new();
    let l = estimate(&empty);
    assert_eq!(l.samples, 0);
    assert!(!l.exceeds(0));
    let cfg = config(0, 0);
    assert!(!evaluate(&estimate(&zeros), &cfg, 0));
    assert!(!evaluate(&estimate(&empty), &cfg, 999_999));
}

#[test]
fn quiet_batch_never_raises_whatever_the_draw() {
    let cfg = config(MINUS_3_DB, 50_000);
    let quiet = estimate(&vec![500_000i32; 32]);
    for draw in [0u32, 49_999, 50_000, 500_000, 999_999] {
        assert!(!evaluate(&quiet, &cfg, draw));
    }
    let at_threshold = Loudness { total: MINUS_3_DB as u128 * 4, samples: 4 };
    assert!(!evaluate(&at_threshold, &cfg, 999_999));
}

#[test]
fn loud_batch_raises_by_the_draw() {
    let cfg = config(MINUS_3_DB, 50_000);
    let loud = estimate(&vec![FULL_SCALE as i32; 32]);
    assert!(!evaluate(&loud, &cfg, 0));
    assert!(evaluate(&loud, &cfg, 500_000));
    assert!(!evaluate(&loud, &cfg, 49_999));
    assert!(evaluate(&loud, &cfg, 50_000));
}

#[test]
fn raise_frequency_follows_the_dampening_rate() {
    let batch = vec![FULL_SCALE as i32; 4];
    let trials = 20_000;
    let mut raised = 0;
    for _ in 0..trials {
        let mut g = AudioGuardian::new(config(MINUS_3_DB, 250_000));
        g.process_samples(&batch);
        if g.alert_active {
            raised += 1;
        }
    }
    let share = raised as f64 / trials as f64;
    assert!((share - 0.75).abs() < 0.02, "share {}", share);
}

#[test]
fn random_draw_respects_the_extremes() {
    let batch = vec![FULL_SCALE as i32; 4];
    for _ in 0..200 {
        let mut always = AudioGuardian::new(config(MINUS_3_DB, 0));
        always.process_samples(&batch);
        assert!(always.alert_active);
        let mut never = AudioGuardian::new(config(MINUS_3_DB, PROBABILITY_SCALE));
        never.process_samples(&batch);
        assert!(!never.alert_active);
    }
}

#[test]
fn debounce_admits_once_per_window() {
    let loud = vec![FULL_SCALE as i32; 8];
    let mut g = AudioGuardian::new(config(MINUS_3_DB, 0));
    let mut dispatches = 0;
    for now in [6_000u64, 9_000, 11_500] {
        g.process_samples_with(&loud, 0);
        assert!(g.alert_active);
        if g.debounce(now) {
            dispatches += 1;
            let plan = g.trigger_alerts();
            let results: Vec<ChannelResult> = plan
                .iter()
                .map(|c| ChannelResult { channel: *c, succeeded: true })
                .collect();
            assert!(g.finish_dispatch(&results).is_empty());
        }
        assert!(!g.alert_active);
        if now == 9_000 {
            assert_eq!(dispatches, 1);
        }
    }
    assert_eq!(dispatches, 2);
    assert_eq!(g.last_alert_ms, 11_500);
}

#[test]
fn debounce_needs_more_than_the_cool_down() {
    let mut g = AudioGuardian::new(config(MINUS_3_DB, 0));
    g.alert_active = true;
    assert!(!g.debounce(COOL_DOWN_MS));
    assert!(!g.alert_active);
    assert_eq!(g.last_alert_ms, 0);
    assert!(!g.debounce(COOL_DOWN_MS + 1));
    g.alert_active = true;
    assert!(g.debounce(COOL_DOWN_MS + 1));
    assert!(g.dispatching);
    assert_eq!(g.last_alert_ms, COOL_DOWN_MS + 1);
}

#[test]
fn failed_sound_does_not_stop_the_others() {
    let loud = vec![FULL_SCALE as i32; 8];
    let mut g = AudioGuardian::new(config(MINUS_3_DB, 0));
    g.process_samples_with(&loud, 0);
    assert!(g.debounce(10_000));
    let plan = g.trigger_alerts();
    assert_eq!(
        plan,
        vec![AlertChannel::Sound, AlertChannel::Visual, AlertChannel::Notification]
    );
    let results = vec![
        ChannelResult { channel: AlertChannel::Sound, succeeded: false },
        ChannelResult { channel: AlertChannel::Visual, succeeded: true },
        ChannelResult { channel: AlertChannel::Notification, succeeded: true },
    ];
    assert_eq!(g.finish_dispatch(&results), vec![AlertChannel::Sound]);
    assert!(!g.dispatching);
    g.process_samples_with(&loud, 0);
    assert!(g.alert_active);
    assert!(g.debounce(15_001));
}

#[test]
fn every_failed_channel_is_reported_in_order() {
    let mut g = AudioGuardian::new(config(MINUS_3_DB, 0));
    g.alert_active = true;
    assert!(g.debounce(5_001));
    let results = vec![
        ChannelResult { channel: AlertChannel::Sound, succeeded: true },
        ChannelResult { channel: AlertChannel::Visual, succeeded: false },
        ChannelResult { channel: AlertChannel::Notification, succeeded: false },
    ];
    assert_eq!(
        g.finish_dispatch(&results),
        vec![AlertChannel::Visual, AlertChannel::Notification]
    );
}

#[test]
fn end_to_end_threshold_80_db() {
    let mut g = AudioGuardian::new(config(PLUS_80_DB, 0));
    g.process_samples_with(&vec![500_000i32; 64], 0);
    assert!(!g.debounce(10_000));
    g.process_samples_with(&vec![FULL_SCALE as i32; 64], 0);
    assert!(!g.alert_active);
    assert!(!g.debounce(20_000));
}

#[test]
fn end_to_end_threshold_minus_3_db() {
    let mut g = AudioGuardian::new(config(MINUS_3_DB, 0));
    g.process_samples_with(&vec![500_000i32; 64], 0);
    assert!(!g.alert_active);
    assert!(!g.debounce(10_000));
    g.process_samples_with(&vec![FULL_SCALE as i32; 64], 0);
    assert!(g.alert_active);
    assert!(g.debounce(10_001));
    assert!(!g.alert_active);
    let plan = g.trigger_alerts();
    assert_eq!(plan.len(), 3);
    let results: Vec<ChannelResult> = plan
        .iter()
        .map(|c| ChannelResult { channel: *c, succeeded: true })
        .collect();
    assert!(g.finish_dispatch(&results).is_empty());
    assert!(!g.dispatching);
    assert!(!g.alert_active);
}

#[test]
fn defaults_match_the_documented_values() {
    assert_eq!(default_threshold(), 17_782_794_100);
    assert_eq!(default_alert_radius(), 500);
    assert_eq!(default_false_positive_rate(), 50_000);
    assert_eq!(default_danger_sounds(), vec!["gunshot", "glass_break", "scream"]);
    let cfg = SystemConfig::default();
    assert_eq!(cfg.threshold_level, 17_782_794_100);
    assert_eq!(cfg.danger_patterns.len(), 3);
    assert_eq!(cfg.alert_radius_centimiles, 500);
    assert_eq!(cfg.fp_rate, 50_000);
    // The default threshold lies above full scale: no batch reaches it.
    let mut g = AudioGuardian::new(cfg);
    g.process_samples_with(&vec![FULL_SCALE as i32; 16], 999_999);
    assert!(!g.alert_active);
}

#[test]
fn memory_in_megabytes() {
    assert_eq!(memory_megabytes(0, 4096), 0);
    assert_eq!(memory_megabytes(256, 4096), 1);
    assert_eq!(memory_megabytes(4_194_304, 4096), 16_384);
    assert_eq!(memory_megabytes(255, 4096), 0);
    assert_eq!(memory_megabytes(u64::MAX, u64::MAX), u64::MAX);
}

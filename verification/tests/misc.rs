use ducker::gate::ClickGate;
use ducker::settings::{AudioSettings, AudioStatus};
use ducker::stats::{AudioStats, SharedStats};
use ducker::trigger::{GrZone, QuackTrigger};

#[test]
fn quack_needs_release_before_retrigger() {
    let mut t = QuackTrigger::new();
    let zones = [
        GrZone::Hold,
        GrZone::Deep,
        GrZone::Deep,
        GrZone::Hold,
        GrZone::Deep,
        GrZone::Released,
        GrZone::Deep,
    ];
    let fired: Vec<bool> = zones.iter().map(|z| t.update(*z)).collect();
    assert_eq!(fired, vec![false, true, false, false, false, false, true]);
}

#[test]
fn clicks_closer_than_50ms_are_ignored() {
    let mut g = ClickGate::new(1_000);
    assert!(!g.can_click(1_020));
    assert!(g.can_click(1_050));
    assert!(!g.can_click(1_099));
    assert!(g.can_click(1_100));
    assert!(!g.can_click(900));
}

#[test]
fn default_settings() {
    let s = AudioSettings::default();
    assert_eq!(s.input_device_name, None);
    assert_eq!(s.output_device_name, None);
    assert_eq!(s.main_channel, 0);
    assert_eq!(s.sidechain_channel, 1);
    assert_eq!(s.sample_rate_hz, Some(48_000));
    assert_eq!(s.buffer_size, Some(256));
}

#[test]
fn status_labels() {
    assert_eq!(AudioStatus::Running.label(), "RUNNING");
    assert_eq!(AudioStatus::Stopped.label(), "STOPPED");
    assert_eq!(AudioStatus::Error("x".to_string()).label(), "ERROR");
}

#[test]
fn stats_snapshot_copies_every_field() {
    let mut s = AudioStats::default();
    assert_eq!(s.snapshot(), SharedStats::default());
    s.cpu_load_bits = (12.5f32).to_bits();
    s.latency_ms_bits = (5.33f32).to_bits();
    s.sample_rate_hz = 48_000;
    s.buffer_size = 256;
    let snap = s.snapshot();
    assert_eq!(f32::from_bits(snap.cpu_load_bits), 12.5);
    assert_eq!(f32::from_bits(snap.latency_ms_bits), 5.33);
    assert_eq!(snap.sample_rate_hz, 48_000);
    assert_eq!(snap.buffer_size, 256);
}

use ducker::config::{
    buffer_frames, choose_config, pick_config, preferred_rates, BufferSize, ConfigError,
    StreamConfig, SupportedRange,
};

fn range(is_f32: bool, channels: u16, min: u32, max: u32) -> SupportedRange {
    SupportedRange { is_f32, channels, min_sample_rate: min, max_sample_rate: max }
}

#[test]
fn preferred_rates_put_an_unusual_request_first() {
    assert_eq!(preferred_rates(Some(96_000)), vec![96_000, 48_000, 44_100]);
    assert_eq!(preferred_rates(Some(44_100)), vec![48_000, 44_100]);
    assert_eq!(preferred_rates(Some(48_000)), vec![48_000, 44_100]);
    assert_eq!(preferred_rates(None), vec![48_000, 44_100]);
}

#[test]
fn requested_rate_is_used_when_supported() {
    let ins = vec![range(true, 2, 8_000, 192_000)];
    let outs = vec![range(true, 2, 8_000, 192_000)];
    let (i, o) = choose_config(&ins, &outs, Some(96_000), Some(128)).unwrap();
    assert_eq!(i, StreamConfig { channels: 2, sample_rate: 96_000, buffer_size: BufferSize::Fixed(128) });
    assert_eq!(o, StreamConfig { channels: 2, sample_rate: 96_000, buffer_size: BufferSize::Fixed(128) });
}

#[test]
fn request_of_44100_loses_to_48000() {
    let ins = vec![range(true, 2, 44_100, 48_000)];
    let outs = vec![range(true, 2, 44_100, 48_000)];
    let (i, _) = choose_config(&ins, &outs, Some(44_100), None).unwrap();
    assert_eq!(i.sample_rate, 48_000);
}

#[test]
fn both_streams_take_the_lower_rate_and_default_buffer() {
    let ins = vec![range(true, 4, 44_100, 44_100)];
    let outs = vec![range(true, 2, 48_000, 48_000)];
    let (i, o) = choose_config(&ins, &outs, None, None).unwrap();
    assert_eq!(i, StreamConfig { channels: 4, sample_rate: 44_100, buffer_size: BufferSize::Fixed(256) });
    assert_eq!(o, StreamConfig { channels: 2, sample_rate: 44_100, buffer_size: BufferSize::Fixed(256) });
}

#[test]
fn non_f32_and_out_of_range_configs_are_skipped() {
    let ranges = vec![
        range(false, 8, 8_000, 192_000),
        range(true, 6, 96_000, 192_000),
        range(true, 1, 44_100, 48_000),
        range(true, 2, 8_000, 192_000),
    ];
    let prefs = preferred_rates(None);
    assert_eq!(
        pick_config(&ranges, &prefs),
        Some(StreamConfig { channels: 1, sample_rate: 48_000, buffer_size: BufferSize::Default })
    );
}

#[test]
fn missing_input_config_is_reported_first() {
    let none = vec![range(false, 2, 8_000, 192_000)];
    let good = vec![range(true, 2, 8_000, 192_000)];
    assert_eq!(choose_config(&none, &none, None, None), Err(ConfigError::NoInputConfig));
    assert_eq!(choose_config(&good, &none, None, None), Err(ConfigError::NoOutputConfig));
    assert_eq!(choose_config(&vec![], &good, None, None), Err(ConfigError::NoInputConfig));
}

#[test]
fn buffer_frames_of_default_is_zero() {
    assert_eq!(buffer_frames(BufferSize::Fixed(512)), 512);
    assert_eq!(buffer_frames(BufferSize::Default), 0);
}

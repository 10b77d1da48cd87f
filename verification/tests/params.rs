use ducker::params::{Knob, Params};

#[test]
fn stores_f32_in_atomics() {
    let mut p = Params::default();
    p.store(Knob::Threshold, (-13.5f32).to_bits());
    p.store(Knob::Ratio, (8.0f32).to_bits());
    p.set_sc_highpass_on(false);
    assert_eq!(f32::from_bits(p.load(Knob::Threshold)), -13.5);
    assert_eq!(f32::from_bits(p.load(Knob::Ratio)), 8.0);
    assert!(!p.get_sc_highpass_on());
}

#[test]
fn default_params_are_the_startup_values() {
    let p = Params::default();
    assert_eq!(f32::from_bits(p.load(Knob::Threshold)), -30.0);
    assert_eq!(f32::from_bits(p.load(Knob::Ratio)), 10.0);
    assert_eq!(f32::from_bits(p.load(Knob::Attack)), 1.0);
    assert_eq!(f32::from_bits(p.load(Knob::Release)), 120.0);
    assert_eq!(f32::from_bits(p.load(Knob::Knee)), 1.0);
    assert_eq!(f32::from_bits(p.load(Knob::Makeup)), 0.0);
    assert_eq!(f32::from_bits(p.load(Knob::HpfFreq)), 80.0);
    assert_eq!(f32::from_bits(p.load(Knob::DryWet)), 100.0);
    assert_eq!(f32::from_bits(p.load(Knob::QuackIntensity)), 1.0);
    assert!(!p.get_sc_highpass_on());
}

#[test]
fn highpass_switch_reads_back() {
    let mut p = Params::default();
    p.set_sc_highpass_on(true);
    assert!(p.get_sc_highpass_on());
    assert_eq!(f32::from_bits(p.load(Knob::HpfFreq)), 80.0);
    p.set_sc_highpass_on(false);
    assert!(!p.get_sc_highpass_on());
}

#[test]
fn writing_one_knob_leaves_the_others() {
    let mut p = Params::default();
    p.store(Knob::Makeup, (6.0f32).to_bits());
    p.store(Knob::Makeup, (-3.0f32).to_bits());
    assert_eq!(f32::from_bits(p.load(Knob::Makeup)), -3.0);
    assert_eq!(f32::from_bits(p.load(Knob::Knee)), 1.0);
    assert_eq!(f32::from_bits(p.load(Knob::QuackIntensity)), 1.0);
    assert!(!p.get_sc_highpass_on());
}

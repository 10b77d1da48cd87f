use vstd::prelude::*;

verus! {

/// The continuous parameters of the ducker. Each one is stored as the bit
/// pattern of a 32-bit IEEE float (`f32::to_bits`), so the store itself never
/// interprets the value.
#[derive(Clone, Copy, Debug, PartialEq, Eq, Structural)]
pub enum Knob {
    Threshold,
    Ratio,
    Attack,
    Release,
    Knee,
    Makeup,
    HpfFreq,
    DryWet,
    QuackIntensity,
}

/// Parameter store shared between the interface and the audio callback.
#[derive(Debug)]
pub struct Params {
    threshold_db: u32,
    ratio: u32,
    attack_ms: u32,
    release_ms: u32,
    knee_db: u32,
    makeup_db: u32,
    sc_highpass_on: u32,
    sc_hpf_freq_hz: u32,
    dry_wet_percent: u32,
    quack_intensity: u32,
}

impl Params {
    /// The stored bit pattern of a knob.
    pub closed spec fn knob(&self, k: Knob) -> u32 {
        match k {
            Knob::Threshold => self.threshold_db,
            Knob::Ratio => self.ratio,
            Knob::Attack => self.attack_ms,
            Knob::Release => self.release_ms,
            Knob::Knee => self.knee_db,
            Knob::Makeup => self.makeup_db,
            Knob::HpfFreq => self.sc_hpf_freq_hz,
            Knob::DryWet => self.dry_wet_percent,
            Knob::QuackIntensity => self.quack_intensity,
        }
    }

    /// The word that holds the side-chain high-pass switch.
    pub closed spec fn highpass_word(&self) -> u32 {
        self.sc_highpass_on
    }

    /// The switch as the store reports it: on exactly when the word is one.
    pub open spec fn highpass_on(&self) -> bool {
        self.highpass_word() == 1
    }

    /// The store after writing `bits` into knob `k`.
    pub closed spec fn with_knob(self, k: Knob, bits: u32) -> Params {
        match k {
            Knob::Threshold => Params { threshold_db: bits, ..self },
            Knob::Ratio => Params { ratio: bits, ..self },
            Knob::Attack => Params { attack_ms: bits, ..self },
            Knob::Release => Params { release_ms: bits, ..self },
            Knob::Knee => Params { knee_db: bits, ..self },
            Knob::Makeup => Params { makeup_db: bits, ..self },
            Knob::HpfFreq => Params { sc_hpf_freq_hz: bits, ..self },
            Knob::DryWet => Params { dry_wet_percent: bits, ..self },
            Knob::QuackIntensity => Params { quack_intensity: bits, ..self },
        }
    }

    /// The store after writing the switch: the word becomes 1 or 0.
    pub closed spec fn with_highpass(self, v: bool) -> Params {
        Params { sc_highpass_on: if v { 1 } else { 0 }, ..self }
    }

    /// Writes the bit pattern of knob `k`.
    pub fn store(&mut self, k: Knob, bits: u32)
        ensures
            *final(self) == old(self).with_knob(k, bits),
    {
        match k {
            Knob::Threshold => self.threshold_db = bits,
            Knob::Ratio => self.ratio = bits,
            Knob::Attack => self.attack_ms = bits,
            Knob::Release => self.release_ms = bits,
            Knob::Knee => self.knee_db = bits,
            Knob::Makeup => self.makeup_db = bits,
            Knob::HpfFreq => self.sc_hpf_freq_hz = bits,
            Knob::DryWet => self.dry_wet_percent = bits,
            Knob::QuackIntensity => self.quack_intensity = bits,
        }
    }

    /// Reads the bit pattern of knob `k`.
    pub fn load(&self, k: Knob) -> (r: u32)
        ensures
            r == self.knob(k),
    {
        match k {
            Knob::Threshold => self.threshold_db,
            Knob::Ratio => self.ratio,
            Knob::Attack => self.attack_ms,
            Knob::Release => self.release_ms,
            Knob::Knee => self.knee_db,
            Knob::Makeup => self.makeup_db,
            Knob::HpfFreq => self.sc_hpf_freq_hz,
            Knob::DryWet => self.dry_wet_percent,
            Knob::QuackIntensity => self.quack_intensity,
        }
    }

    /// Switches the side-chain high-pass filter on or off (stored as 1 or 0).
    pub fn set_sc_highpass_on(&mut self, v: bool)
        ensures
            *final(self) == old(self).with_highpass(v),
    {
        self.sc_highpass_on = if v { 1 } else { 0 };
    }

    /// Whether the side-chain high-pass filter is on.
    pub fn get_sc_highpass_on(&self) -> (r: bool)
        ensures
            r == self.highpass_on(),
            r == (self.highpass_word() == 1),
    {
        self.sc_highpass_on == 1
    }

    /// Reading a knob gives back what was last written to it; writing one
    /// knob leaves every other knob and the switch as they were.
    pub proof fn law_knob_read_after_write(self, k: Knob, j: Knob, bits: u32)
        ensures
            self.with_knob(k, bits).knob(k) == bits,
            j != k ==> self.with_knob(k, bits).knob(j) == self.knob(j),
            self.with_knob(k, bits).highpass_on() == self.highpass_on(),
    {
    }

    /// Reading the switch gives back what was last written; writing the
    /// switch leaves every knob as it was.
    pub proof fn law_highpass_read_after_write(self, v: bool, j: Knob)
        ensures
            self.with_highpass(v).highpass_on() == v,
            self.with_highpass(v).highpass_word() == if v { 1u32 } else { 0u32 },
            self.with_highpass(v).knob(j) == self.knob(j),
    {
    }
}

impl Default for Params {
    /// The start-up values: threshold -30 dB, ratio 10, attack 1 ms,
    /// release 120 ms, knee 1 dB, makeup 0 dB, high-pass off at 80 Hz,
    /// fully wet, quack intensity 1 (each as its `f32` bit pattern).
    fn default() -> (r: Self)
        ensures
            r.knob(Knob::Threshold) == 0xC1F0_0000u32,
            r.knob(Knob::Ratio) == 0x4120_0000u32,
            r.knob(Knob::Attack) == 0x3F80_0000u32,
            r.knob(Knob::Release) == 0x42F0_0000u32,
            r.knob(Knob::Knee) == 0x3F80_0000u32,
            r.knob(Knob::Makeup) == 0u32,
            r.knob(Knob::HpfFreq) == 0x42A0_0000u32,
            r.knob(Knob::DryWet) == 0x42C8_0000u32,
            r.knob(Knob::QuackIntensity) == 0x3F80_0000u32,
            r.highpass_word() == 0,
    {
        Params {
            threshold_db: 0xC1F0_0000,
            ratio: 0x4120_0000,
            attack_ms: 0x3F80_0000,
            release_ms: 0x42F0_0000,
            knee_db: 0x3F80_0000,
            makeup_db: 0,
            sc_highpass_on: 0,
            sc_hpf_freq_hz: 0x42A0_0000,
            dry_wet_percent: 0x42C8_0000,
            quack_intensity: 0x3F80_0000,
        }
    }
}

} // verus!

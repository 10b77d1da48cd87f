use vstd::prelude::*;

verus! {

/// A copy of the engine statistics. The load and latency are the bit
/// patterns of `f32` values (percent and milliseconds).
#[derive(Clone, Copy, Debug, Default, PartialEq, Eq, Structural)]
pub struct SharedStats {
    pub cpu_load_bits: u32,
    pub latency_ms_bits: u32,
    pub sample_rate_hz: u32,
    pub buffer_size: u32,
}

/// The statistics the engine writes while it runs.
#[derive(Debug)]
pub struct AudioStats {
    pub cpu_load_bits: u32,
    pub latency_ms_bits: u32,
    pub sample_rate_hz: u32,
    pub buffer_size: u32,
}

impl Default for AudioStats {
    /// Everything zero (the zero bits are also `0.0f32`).
    fn default() -> (r: Self)
        ensures
            r.cpu_load_bits == 0,
            r.latency_ms_bits == 0,
            r.sample_rate_hz == 0,
            r.buffer_size == 0,
    {
        AudioStats { cpu_load_bits: 0, latency_ms_bits: 0, sample_rate_hz: 0, buffer_size: 0 }
    }
}

impl AudioStats {
    /// A copy of the current statistics.
    pub fn snapshot(&self) -> (r: SharedStats)
        ensures
            r.cpu_load_bits == self.cpu_load_bits,
            r.latency_ms_bits == self.latency_ms_bits,
            r.sample_rate_hz == self.sample_rate_hz,
            r.buffer_size == self.buffer_size,
    {
        SharedStats {
            cpu_load_bits: self.cpu_load_bits,
            latency_ms_bits: self.latency_ms_bits,
            sample_rate_hz: self.sample_rate_hz,
            buffer_size: self.buffer_size,
        }
    }
}

} // verus!

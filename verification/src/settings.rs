use vstd::prelude::*;

verus! {

/// Which devices and channels the engine uses, and what it asks of them.
#[derive(Clone, Debug)]
pub struct AudioSettings {
    pub input_device_name: Option<String>,
    pub output_device_name: Option<String>,
    pub main_channel: usize,
    pub sidechain_channel: usize,
    pub sample_rate_hz: Option<u32>,
    pub buffer_size: Option<u32>,
}

impl Default for AudioSettings {
    /// Default devices, program audio on the first input channel, side chain
    /// on the second, 48 kHz with a 256-frame buffer.
    fn default() -> (r: Self)
        ensures
            r.input_device_name is None,
            r.output_device_name is None,
            r.main_channel == 0,
            r.sidechain_channel == 1,
            r.sample_rate_hz == Some(48_000u32),
            r.buffer_size == Some(256u32),
    {
        AudioSettings {
            input_device_name: None,
            output_device_name: None,
            main_channel: 0,
            sidechain_channel: 1,
            sample_rate_hz: Some(48_000),
            buffer_size: Some(256),
        }
    }
}

/// A request sent to the engine.
#[derive(Clone, Debug)]
pub enum AudioCommand {
    /// Drop the running streams and build new ones with these settings.
    Restart(AudioSettings),
    /// Drop the streams and end the engine.
    Stop,
}

/// What the engine reports about itself.
#[derive(Clone, Debug)]
pub enum AudioStatus {
    Running,
    Stopped,
    Error(String),
}

impl AudioStatus {
    /// The word the interface shows for this status.
    pub fn label(&self) -> (r: &'static str)
        ensures
            r@ == match self {
                AudioStatus::Running => "RUNNING"@,
                AudioStatus::Stopped => "STOPPED"@,
                AudioStatus::Error(_) => "ERROR"@,
            },
    {
        match self {
            AudioStatus::Running => "RUNNING",
            AudioStatus::Stopped => "STOPPED",
            AudioStatus::Error(_) => "ERROR",
        }
    }
}

} // verus!

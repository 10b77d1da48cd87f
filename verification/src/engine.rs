use vstd::prelude::*;
use crate::settings::{AudioCommand, AudioSettings, AudioStatus};

verus! {

/// The decisions of the engine thread. The thread owns the streams; this
/// value records whether they are up, with which settings they are to be
/// built, and whether the engine has ended.
pub struct EngineState {
    current: AudioSettings,
    running: bool,
    finished: bool,
}

/// What the engine thread does after a command.
#[derive(Debug)]
pub enum EngineStep {
    /// Go round again (rebuilding the streams if they are down).
    Continue,
    /// Report this status and end the thread.
    Exit(AudioStatus),
}

impl EngineState {
    /// The settings the next streams are built with.
    pub closed spec fn settings_spec(&self) -> AudioSettings {
        self.current
    }

    /// Whether streams are up.
    pub closed spec fn is_running(&self) -> bool {
        self.running
    }

    /// Whether the engine has ended.
    pub closed spec fn is_finished(&self) -> bool {
        self.finished
    }

    /// The state after a build attempt: up on success, down on failure.
    pub closed spec fn after_build(self, ok: bool) -> EngineState {
        EngineState { running: ok, ..self }
    }

    /// The state after a command (`None` when the command channel closed):
    /// a restart takes down the streams and keeps the new settings; a stop or
    /// a closed channel takes them down and ends the engine.
    pub closed spec fn after_command(self, cmd: Option<AudioCommand>) -> EngineState {
        match cmd {
            Some(AudioCommand::Restart(s)) => EngineState { current: s, running: false, ..self },
            _ => EngineState { running: false, finished: true, ..self },
        }
    }

    /// A fresh engine with no streams, and the status it reports first.
    pub fn new(initial: AudioSettings) -> (r: (EngineState, AudioStatus))
        ensures
            r.0.settings_spec() == initial,
            !r.0.is_running(),
            !r.0.is_finished(),
            r.1 is Stopped,
    {
        (EngineState { current: initial, running: false, finished: false }, AudioStatus::Stopped)
    }

    /// The settings the next streams are to be built with.
    pub fn settings(&self) -> (r: &AudioSettings)
        ensures
            *r == self.settings_spec(),
    {
        &self.current
    }

    /// Whether the thread must build streams before it waits for a command.
    pub fn needs_streams(&self) -> (r: bool)
        ensures
            r == (!self.is_running() && !self.is_finished()),
    {
        !self.running && !self.finished
    }

    /// Records the outcome of a build attempt and returns the status to
    /// report: running, or the error message of the failure.
    pub fn on_build_result(&mut self, result: Result<(), String>) -> (status: AudioStatus)
        ensures
            *final(self) == old(self).after_build(result is Ok),
            match result {
                Ok(()) => status is Running,
                Err(e) => status == AudioStatus::Error(e),
            },
    {
        match result {
            Ok(()) => {
                self.running = true;
                AudioStatus::Running
            },
            Err(e) => {
                self.running = false;
                AudioStatus::Error(e)
            },
        }
    }

    /// Handles the next command, `None` meaning that the channel closed.
    pub fn on_command(&mut self, cmd: Option<AudioCommand>) -> (step: EngineStep)
        ensures
            *final(self) == old(self).after_command(cmd),
            match cmd {
                Some(AudioCommand::Restart(_)) => step is Continue,
                _ => step matches EngineStep::Exit(AudioStatus::Stopped),
            },
    {
        match cmd {
            Some(AudioCommand::Restart(s)) => {
                self.current = s;
                self.running = false;
                EngineStep::Continue
            },
            _ => {
                self.running = false;
                self.finished = true;
                EngineStep::Exit(AudioStatus::Stopped)
            },
        }
    }

    /// After a restart the streams are rebuilt, with the new settings.
    pub proof fn law_restart_rebuilds(self, s: AudioSettings)
        requires
            !self.is_finished(),
        ensures
            self.after_command(Some(AudioCommand::Restart(s))).settings_spec() == s,
            !self.after_command(Some(AudioCommand::Restart(s))).is_running(),
            !self.after_command(Some(AudioCommand::Restart(s))).is_finished(),
    {
    }

    /// A stop, or a closed command channel, ends the engine with its streams
    /// down, and no later build outcome makes it build again.
    pub proof fn law_stop_is_final(self, cmd: Option<AudioCommand>, ok: bool)
        requires
            !(cmd matches Some(AudioCommand::Restart(_))),
        ensures
            self.after_command(cmd).is_finished(),
            !self.after_command(cmd).is_running(),
            self.after_command(cmd).after_build(ok).is_finished(),
    {
    }

    /// A build attempt never changes the settings; a failed one leaves the
    /// streams down so that they are built again after the next restart.
    pub proof fn law_build_keeps_settings(self, ok: bool)
        ensures
            self.after_build(ok).settings_spec() == self.settings_spec(),
            self.after_build(ok).is_running() == ok,
            self.after_build(ok).is_finished() == self.is_finished(),
    {
    }
}

} // verus!

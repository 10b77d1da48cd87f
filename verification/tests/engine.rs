use ducker::engine::{EngineState, EngineStep};
use ducker::settings::{AudioCommand, AudioSettings, AudioStatus};

#[test]
fn engine_runs_restarts_and_stops() {
    let (mut e, first) = EngineState::new(AudioSettings::default());
    assert!(matches!(first, AudioStatus::Stopped));
    assert!(e.needs_streams());
    assert!(matches!(e.on_build_result(Ok(())), AudioStatus::Running));
    assert!(!e.needs_streams());

    let mut s = AudioSettings::default();
    s.input_device_name = Some("EVO 4".to_string());
    s.main_channel = 0;
    s.sidechain_channel = 1;
    assert!(matches!(e.on_command(Some(AudioCommand::Restart(s))), EngineStep::Continue));
    assert!(e.needs_streams());
    assert_eq!(e.settings().input_device_name.as_deref(), Some("EVO 4"));

    match e.on_build_result(Err("No input device available".to_string())) {
        AudioStatus::Error(m) => assert_eq!(m, "No input device available"),
        other => panic!("unexpected status {:?}", other),
    }
    assert!(e.needs_streams());

    assert!(matches!(e.on_command(Some(AudioCommand::Stop)), EngineStep::Exit(AudioStatus::Stopped)));
    assert!(!e.needs_streams());
}

#[test]
fn closed_channel_stops_the_engine() {
    let (mut e, _) = EngineState::new(AudioSettings::default());
    assert!(matches!(e.on_build_result(Ok(())), AudioStatus::Running));
    assert!(matches!(e.on_command(None), EngineStep::Exit(AudioStatus::Stopped)));
    assert!(!e.needs_streams());
}

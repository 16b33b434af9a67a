use audio_player::controls::{ControlAction, KeyCommand, Playback};

#[test]
fn volume_steps_by_five_within_bounds() {
    let mut p = Playback::new();
    assert_eq!(p.volume, 50);
    assert_eq!(p.apply_key(KeyCommand::IncreaseVolume, false), ControlAction::SetVolume(55));
    p.volume = 98;
    assert_eq!(p.apply_key(KeyCommand::IncreaseVolume, true), ControlAction::SetVolume(100));
    p.volume = 3;
    assert_eq!(p.apply_key(KeyCommand::DecreaseVolume, true), ControlAction::SetVolume(0));
    assert_eq!(p.volume, 0);
}

#[test]
fn toggle_pause_needs_a_loaded_track() {
    let mut p = Playback::new();
    assert_eq!(p.apply_key(KeyCommand::TogglePause, false), ControlAction::Nothing);
    assert!(!p.paused);
    assert_eq!(p.apply_key(KeyCommand::TogglePause, true), ControlAction::Pause);
    assert!(p.paused);
    assert_eq!(p.apply_key(KeyCommand::TogglePause, true), ControlAction::Resume);
    assert!(!p.paused);
}

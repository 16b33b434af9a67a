//! Playback controls driven by global key commands.
//!
//! Volume is a whole percentage, 0 to 100.
use vstd::prelude::*;

verus! {

/// Highest volume, in percent.
pub const VOLUME_MAX: u32 = 100;

/// Volume change of one key press, in percent.
pub const VOLUME_STEP: u32 = 5;

/// Commands sent by the global key listener.
#[derive(Clone, Copy, Debug, PartialEq, Eq, Structural)]
pub enum KeyCommand {
    IncreaseVolume,
    TogglePause,
    DecreaseVolume,
}

/// What the player must do to its output after a command.
#[derive(Clone, Copy, Debug, PartialEq, Eq, Structural)]
pub enum ControlAction {
    SetVolume(u32),
    Pause,
    Resume,
    Nothing,
}

/// Volume and pause state of the player.
#[derive(Clone, Copy, Debug, PartialEq, Eq, Structural)]
pub struct Playback {
    pub volume: u32,
    pub paused: bool,
}

/// The state and action after `cmd`; pausing and resuming only take effect
/// when a track is loaded, while the volume changes in any case.
pub open spec fn after_key(p: Playback, cmd: KeyCommand, loaded: bool) -> (Playback, ControlAction) {
    match cmd {
        KeyCommand::IncreaseVolume => {
            let v = if p.volume + VOLUME_STEP > VOLUME_MAX {
                VOLUME_MAX
            } else {
                (p.volume + VOLUME_STEP) as u32
            };
            (Playback { volume: v, paused: p.paused }, ControlAction::SetVolume(v))
        },
        KeyCommand::DecreaseVolume => {
            let v = if p.volume < VOLUME_STEP {
                0
            } else {
                (p.volume - VOLUME_STEP) as u32
            };
            (Playback { volume: v, paused: p.paused }, ControlAction::SetVolume(v))
        },
        KeyCommand::TogglePause => {
            if !loaded {
                (p, ControlAction::Nothing)
            } else if p.paused {
                (Playback { volume: p.volume, paused: false }, ControlAction::Resume)
            } else {
                (Playback { volume: p.volume, paused: true }, ControlAction::Pause)
            }
        },
    }
}

impl Playback {
    /// Half volume, playing.
    pub fn new() -> (r: Self)
        ensures
            r == (Playback { volume: 50, paused: false }),
    {
        Playback { volume: 50, paused: false }
    }

    /// Applies a key command; `loaded` tells whether a track is loaded.
    pub fn apply_key(&mut self, cmd: KeyCommand, loaded: bool) -> (action: ControlAction)
        requires
            old(self).volume <= VOLUME_MAX,
        ensures
            (*final(self), action) == after_key(*old(self), cmd, loaded),
            final(self).volume <= VOLUME_MAX,
    {
        match cmd {
            KeyCommand::IncreaseVolume => {
                let v = if self.volume + VOLUME_STEP > VOLUME_MAX {
                    VOLUME_MAX
                } else {
                    self.volume + VOLUME_STEP
                };
                self.volume = v;
                ControlAction::SetVolume(v)
            },
            KeyCommand::DecreaseVolume => {
                let v = if self.volume < VOLUME_STEP {
                    0
                } else {
                    self.volume - VOLUME_STEP
                };
                self.volume = v;
                ControlAction::SetVolume(v)
            },
            KeyCommand::TogglePause => {
                if !loaded {
                    ControlAction::Nothing
                } else if self.paused {
                    self.paused = false;
                    ControlAction::Resume
                } else {
                    self.paused = true;
                    ControlAction::Pause
                }
            },
        }
    }
}

} // verus!

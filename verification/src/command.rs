//! What the user can ask of the playback engine.

use vstd::prelude::*;

verus! {

/// A single user intent, sent from the interface to the playback engine.
#[derive(Clone, Copy, Debug, PartialEq, Eq, Structural)]
pub enum Command {
    /// Leave the player.
    Quit,
    /// Skip to the next track.
    SkipNext,
    /// Pause if playing, resume if paused.
    TogglePlayPause,
    /// Change the volume by this many hundredths of full volume.
    AdjustVolume(i32),
}

/// A coarse step up, in hundredths of full volume.
pub const STEP_UP: i32 = 10;

/// A coarse step down.
pub const STEP_DOWN: i32 = -10;

/// A fine step up.
pub const NUDGE_UP: i32 = 1;

/// A fine step down.
pub const NUDGE_DOWN: i32 = -1;

/// The change that drives the volume to its floor.
pub const MUTE: i32 = -100;

impl Command {
    /// Whether this command changes the volume.
    pub open spec fn adjusts_volume(self) -> bool {
        self is AdjustVolume
    }

    /// Whether this command changes the volume.
    #[verifier::when_used_as_spec(adjusts_volume)]
    pub fn changes_volume(self) -> (b: bool)
        ensures
            b == self.adjusts_volume(),
    {
        match self {
            Command::AdjustVolume(_) => true,
            _ => false,
        }
    }
}

} // verus!

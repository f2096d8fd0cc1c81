//! What the timeline and the control bar know of the media player: a
//! reading of its state, taken by the caller once per frame.

use vstd::prelude::*;

verus! {

/// What the player is doing.
#[derive(Clone, Copy, Debug, PartialEq, Eq, Structural)]
pub enum PlayerState {
    Playing,
    Paused,
    Stopped,
}

/// One reading of the player.
#[derive(Clone, Copy, Debug, PartialEq, Eq, Structural)]
pub struct PlayerStatus {
    pub state: PlayerState,
    /// Milliseconds played so far.
    pub elapsed_ms: u64,
    /// Length of the media in milliseconds.
    pub duration_ms: u64,
}

impl PlayerStatus {
    /// Whole seconds played so far.
    pub fn elapsed_seconds(&self) -> (r: u64)
        ensures
            r == self.elapsed_ms / 1000,
    {
        self.elapsed_ms / 1000
    }

    /// Length of the media in whole seconds.
    pub fn duration_seconds(&self) -> (r: u64)
        ensures
            r == self.duration_ms / 1000,
    {
        self.duration_ms / 1000
    }
}

} // verus!

//! The control bar: the play button and the clock beside it.

use crate::player::{PlayerState, PlayerStatus};
use crate::text::{minutes_seconds, minutes_seconds_text};
use vstd::prelude::*;
use vstd::string::StringExecFns;

verus! {

/// What the play button shows.
#[derive(Clone, Copy, Debug, PartialEq, Eq, Structural)]
pub enum PlayIcon {
    /// Shown while the media plays: a click pauses.
    Pause,
    /// Shown while the media is paused: a click plays.
    Play,
    /// Shown otherwise.
    Stop,
}

/// What there is to paint of the control bar in one frame.
#[derive(Debug)]
pub struct ControlBarView {
    pub icon: PlayIcon,
    /// Time played and length of the media, `mm:ss/mm:ss`; empty without a
    /// player.
    pub label: String,
    /// The play button was clicked: the player is to be toggled.
    pub play_clicked: bool,
}

/// The control bar.
#[derive(Clone, Copy, Debug, PartialEq, Eq, Structural)]
pub struct ControlBar {
    /// The player's last reading, once there is a player.
    pub player: Option<PlayerStatus>,
}

/// The icon of the play button for a player in `state`.
pub open spec fn icon_of(state: PlayerState) -> PlayIcon {
    match state {
        PlayerState::Playing => PlayIcon::Pause,
        PlayerState::Paused => PlayIcon::Play,
        PlayerState::Stopped => PlayIcon::Stop,
    }
}

/// The clock of a player: whole seconds played and whole seconds of media,
/// each as `mm:ss`, with a slash between.
pub open spec fn clock_label(player: PlayerStatus) -> Seq<char> {
    minutes_seconds_text((player.elapsed_ms / 1000) as nat) + seq!['/'] + minutes_seconds_text(
        (player.duration_ms / 1000) as nat,
    )
}

impl Default for ControlBar {
    fn default() -> (r: Self)
        ensures
            r.player is None,
    {
        Self::new()
    }
}

impl ControlBar {
    /// A control bar without a player.
    pub fn new() -> (r: Self)
        ensures
            r.player is None,
    {
        Self { player: None }
    }

    /// Takes up a reading of the player.
    pub fn set_player(&mut self, player: &PlayerStatus)
        ensures
            final(self).player == Some(*player),
    {
        self.player = Some(*player);
    }

    /// One frame of the control bar: icon and clock follow the player, and
    /// a click on the play button is passed on.
    pub fn draw(&self, clicked: bool) -> (r: ControlBarView)
        ensures
            r.play_clicked == clicked,
            r.icon == match self.player {
                Some(player) => icon_of(player.state),
                None => PlayIcon::Stop,
            },
            r.label@ == match self.player {
                Some(player) => clock_label(player),
                None => Seq::<char>::empty(),
            },
    {
        match &self.player {
            Some(player) => {
                let icon = match player.state {
                    PlayerState::Playing => PlayIcon::Pause,
                    PlayerState::Paused => PlayIcon::Play,
                    PlayerState::Stopped => PlayIcon::Stop,
                };
                let mut label = minutes_seconds(player.elapsed_seconds());
                label.append("/");
                label.append(minutes_seconds(player.duration_seconds()).as_str());
                proof {
                    reveal_strlit("/");
                    assert(label@ =~= clock_label(*player));
                }
                ControlBarView { icon, label, play_clicked: clicked }
            },
            None => ControlBarView {
                icon: PlayIcon::Stop,
                label: String::new(),
                play_clicked: clicked,
            },
        }
    }
}

} // verus!

//! The monitor: the widget that shows the media. The player itself is the
//! caller's; here stand the decisions made around it.

use crate::player::{PlayerState, PlayerStatus};
use crate::ui::timeline::SeekRatio;
use vstd::prelude::*;
use vstd::string::StringExecFns;

verus! {

/// What the player is told to do.
#[derive(Clone, Copy, Debug, PartialEq, Eq, Structural)]
pub enum PlayerCommand {
    Resume,
    Pause,
    Seek(SeekRatio),
}

/// What the monitor lets the other widgets know.
#[derive(Clone, Copy, Debug, PartialEq, Eq, Structural)]
pub enum MonitorEvent {
    /// Media of this many whole seconds has been opened.
    MediaDurationChanged(i64),
    /// The player of the media opened is there.
    MediaLoaded(PlayerStatus),
}

/// The monitor.
#[derive(Debug)]
pub struct Monitor {
    /// The player's last reading, once there is a player.
    pub player: Option<PlayerStatus>,
    /// The path of the media shown.
    pub media_path: String,
}

/// What a click on "play" tells a player in `state`: a paused one resumes,
/// a playing one pauses, and a stopped one is left alone.
pub open spec fn play_command(state: PlayerState) -> Option<PlayerCommand> {
    match state {
        PlayerState::Paused => Some(PlayerCommand::Resume),
        PlayerState::Playing => Some(PlayerCommand::Pause),
        PlayerState::Stopped => None,
    }
}

impl Default for Monitor {
    fn default() -> (r: Self)
        ensures
            r.player is None,
            r.media_path@.len() == 0,
    {
        Self::new()
    }
}

impl Monitor {
    /// A monitor without media.
    pub fn new() -> (r: Self)
        ensures
            r.player is None,
            r.media_path@.len() == 0,
    {
        Self { player: None, media_path: String::new() }
    }

    /// Takes up the path of the media to show. `opened` is the reading of
    /// the player that the caller made for the path, if it could make one.
    /// With a player the other widgets are let know the length of the
    /// media, and then the player.
    pub fn set_media_path(&mut self, path: &str, opened: Option<PlayerStatus>) -> (r: Vec<
        MonitorEvent,
    >)
        ensures
            final(self).media_path@ == path@,
            final(self).player == match opened {
                Some(player) => Some(player),
                None => old(self).player,
            },
            r@ == match opened {
                Some(player) => seq![
                    MonitorEvent::MediaDurationChanged((player.duration_ms / 1000) as i64),
                    MonitorEvent::MediaLoaded(player),
                ],
                None => Seq::<MonitorEvent>::empty(),
            },
    {
        self.media_path = String::from_str(path);
        let mut events: Vec<MonitorEvent> = Vec::new();
        match opened {
            Some(player) => {
                events.push(MonitorEvent::MediaDurationChanged((player.duration_ms / 1000) as i64));
                events.push(MonitorEvent::MediaLoaded(player));
                self.player = Some(player);
                assert(events@ =~= seq![
                    MonitorEvent::MediaDurationChanged((player.duration_ms / 1000) as i64),
                    MonitorEvent::MediaLoaded(player),
                ]);
            },
            None => {},
        }
        events
    }

    /// Takes up a new reading of the player.
    pub fn update_player(&mut self, player: &PlayerStatus)
        ensures
            final(self).player == Some(*player),
            final(self).media_path == old(self).media_path,
    {
        self.player = Some(*player);
    }

    /// What a click on "play" tells the player; nothing without a player.
    pub fn play(&self) -> (r: Option<PlayerCommand>)
        ensures
            r == match self.player {
                Some(player) => play_command(player.state),
                None => None,
            },
    {
        match &self.player {
            Some(player) => match player.state {
                PlayerState::Paused => Some(PlayerCommand::Resume),
                PlayerState::Playing => Some(PlayerCommand::Pause),
                PlayerState::Stopped => None,
            },
            None => None,
        }
    }

    /// What a seek to `t` tells the player; nothing without a player.
    pub fn seek(&self, t: &SeekRatio) -> (r: Option<PlayerCommand>)
        ensures
            r == match self.player {
                Some(_) => Some(PlayerCommand::Seek(*t)),
                None => None,
            },
    {
        match &self.player {
            Some(_) => Some(PlayerCommand::Seek(*t)),
            None => None,
        }
    }

    /// The whole seconds that the player has played; 0 without a player.
    pub fn current_timestamp(&self) -> (r: i64)
        ensures
            r == match self.player {
                Some(p) => p.elapsed_ms as int / 1000,
                None => 0,
            },
    {
        match &self.player {
            Some(player) => (player.elapsed_ms / 1000) as i64,
            None => 0,
        }
    }

    /// The length of the media in whole seconds; 0 without a player.
    pub fn get_media_duration(&self) -> (r: i64)
        ensures
            r == match self.player {
                Some(p) => p.duration_ms as int / 1000,
                None => 0,
            },
    {
        match &self.player {
            Some(player) => (player.duration_ms / 1000) as i64,
            None => 0,
        }
    }
}

} // verus!

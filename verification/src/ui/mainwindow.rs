//! The main window: it holds the widgets and the cues, and passes on what
//! one widget lets the others know.

use crate::app::{AppState, SCREEN_HEIGHT, SCREEN_WIDTH};
use crate::io::srt_writer::SrtWriter;
use crate::io::{
    all_have_taken, export_list, none_has_taken, SubripSaveHelper, SubripWriterBuilder, WriteError,
    Writer,
};
use crate::player::PlayerStatus;
use crate::subrip::{Subrip, SubripFormat};
use crate::ui::control_bar::ControlBar;
use crate::ui::menu_bar::MenuBar;
use crate::ui::monitor::{play_command, Monitor, PlayerCommand};
use crate::ui::new_subrip_window::NewSubripWindow;
use crate::ui::subrip_list_widget::{is_row_of, SubripListWidget};
use crate::ui::timeline::granularity::{
    initial_granularity, media_millis, window_for, DEFAULT_GRANULARITY,
};
use crate::ui::timeline::subrip_block::DragMode;
use crate::ui::timeline::{SeekRatio, Timeline};
use vstd::prelude::*;

verus! {

/// What a widget lets the others know.
#[derive(Debug)]
pub enum Event {
    /// The menu bar: the media file at this path is to be opened.
    OpenSelected(String),
    /// The menu bar: the cues are to be exported as SRT.
    ExportSrtSelected,
    /// The menu bar: the open media is to be transcribed.
    TranslateByAiSelected,
    /// The window for new cues: this cue has been written.
    CreatedSubrip(Subrip),
    /// The keyboard: the window for new cues is to be shown or hidden.
    ToggleNewSubripWin,
    /// The cue list: the cue at this place has been dropped on the
    /// timeline.
    SubripLoaded(usize),
    /// The monitor: media of this many whole seconds has been opened.
    MediaDurationChanged(i64),
    /// The monitor: the player of the media opened is there.
    MediaLoaded(PlayerStatus),
    /// The timeline: the player is to seek.
    VideoSeeked(SeekRatio),
    /// The keyboard: the player is to be toggled.
    ToggleMediaPlay,
    /// The control bar: the play button was clicked.
    BtnPlayClicked,
}

/// What is left for the caller to do once an event has been passed on.
#[derive(Debug)]
pub enum Request {
    /// Open the media at this path, and tell the monitor what came of it.
    OpenMedia(String),
    /// Tell the player this.
    Player(PlayerCommand),
    /// Have the media at this path transcribed, and hand the cues to the
    /// cue list.
    Translate(String),
    /// Put the text that the writers hold into their files.
    WriteFiles,
}

impl Clone for Event {
    fn clone(&self) -> (r: Self)
        ensures
            r == *self,
    {
        match self {
            Event::OpenSelected(path) => Event::OpenSelected(path.clone()),
            Event::ExportSrtSelected => Event::ExportSrtSelected,
            Event::TranslateByAiSelected => Event::TranslateByAiSelected,
            Event::CreatedSubrip(subrip) => Event::CreatedSubrip(subrip.clone()),
            Event::ToggleNewSubripWin => Event::ToggleNewSubripWin,
            Event::SubripLoaded(place) => Event::SubripLoaded(*place),
            Event::MediaDurationChanged(duration_s) => Event::MediaDurationChanged(*duration_s),
            Event::MediaLoaded(player) => Event::MediaLoaded(*player),
            Event::VideoSeeked(t) => Event::VideoSeeked(*t),
            Event::ToggleMediaPlay => Event::ToggleMediaPlay,
            Event::BtnPlayClicked => Event::BtnPlayClicked,
        }
    }
}

impl Clone for Request {
    fn clone(&self) -> (r: Self)
        ensures
            r == *self,
    {
        match self {
            Request::OpenMedia(path) => Request::OpenMedia(path.clone()),
            Request::Player(command) => Request::Player(*command),
            Request::Translate(path) => Request::Translate(path.clone()),
            Request::WriteFiles => Request::WriteFiles,
        }
    }
}

/// The main window.
pub struct MainWindow {
    pub app_state: AppState,
    pub menu_bar: MenuBar,
    pub new_subrip_win: NewSubripWindow,
    pub subrip_list_widget: SubripListWidget,
    pub timeline: Timeline,
    pub monitor: Monitor,
    pub control_bar: ControlBar,
    pub subrip_save_helper: SubripSaveHelper<SrtWriter>,
}

/// What the keyboard lets the widgets know in one frame: control and enter
/// toggle the window for new cues, and space toggles the player.
pub open spec fn key_events(ctrl_enter: bool, space: bool) -> Seq<Event> {
    let first = if ctrl_enter {
        seq![Event::ToggleNewSubripWin]
    } else {
        Seq::<Event>::empty()
    };
    if space {
        first.push(Event::ToggleMediaPlay)
    } else {
        first
    }
}

impl MainWindow {
    /// The cues and the timeline are well formed, and every block of the
    /// timeline stands for a cue that is there.
    pub open spec fn wf(&self) -> bool {
        &&& self.app_state.wf()
        &&& self.timeline.wf()
        &&& forall|i: int|
            0 <= i < self.timeline.subrip_blocks@.len() ==> (
            #[trigger] self.timeline.subrip_blocks@[i]).subrip < self.app_state.subrips@.len()
    }

    /// Whether the main window is well formed.
    pub fn is_wf(&self) -> (r: bool)
        ensures
            r == self.wf(),
    {
        if !self.app_state.is_wf() || !self.timeline.is_wf() {
            return false;
        }
        let mut i: usize = 0;
        while i < self.timeline.subrip_blocks.len()
            invariant
                i <= self.timeline.subrip_blocks@.len(),
                forall|k: int|
                    0 <= k < i ==> (#[trigger] self.timeline.subrip_blocks@[k]).subrip
                        < self.app_state.subrips@.len(),
            decreases self.timeline.subrip_blocks@.len() - i,
        {
            if self.timeline.subrip_blocks[i].subrip >= self.app_state.subrips.len() {
                return false;
            }
            i = i + 1;
        }
        true
    }

    /// Whether everything but the cue store, the cue list, the timeline,
    /// the window for new cues, the control bar and the writers is in
    /// `after` as it is in `self`.
    pub open spec fn same_rest(&self, after: MainWindow) -> bool {
        &&& after.menu_bar == self.menu_bar
        &&& after.monitor == self.monitor
        &&& after.subrip_save_helper.save_dir_path == self.subrip_save_helper.save_dir_path
        &&& after.subrip_save_helper.writers@.len() == self.subrip_save_helper.writers@.len()
        &&& after.app_state.screen_width == self.app_state.screen_width
        &&& after.app_state.screen_height == self.app_state.screen_height
        &&& after.app_state.file_path_opening == self.app_state.file_path_opening
    }

    /// Whether `after` and `requests` are what passing `event` on leaves
    /// of `self`, and leaves to do.
    ///
    /// - A file to open is left to the caller.
    /// - An export hands the cues to the writers, in the order of their
    ///   begin times and numbered from 1, and leaves the files to the
    ///   caller; without cues nothing happens.
    /// - A transcription is left to the caller, if media is open.
    /// - A new cue goes into the cue store and gets a row in the cue list.
    /// - The window for new cues is shown or hidden.
    /// - A cue dropped on the timeline gets a block there, if it is in the
    ///   cue store.
    /// - The length of the media goes to the timeline, which chooses
    ///   granularity and window anew.
    /// - A player goes to the timeline, which again chooses granularity
    ///   and window anew, and to the control bar.
    /// - A seek, and a toggle of the player from the keyboard or from the
    ///   play button, become what the monitor tells the player.
    pub open spec fn passes_on(&self, event: Event, after: MainWindow, requests: Seq<Request>)
        -> bool {
        &&& self.same_rest(after)
        &&& match event {
            Event::OpenSelected(path) => {
                &&& requests == seq![Request::OpenMedia(path)]
                &&& self.same_cues(after)
                &&& self.same_writers(after)
                &&& after.timeline == self.timeline
                &&& after.new_subrip_win == self.new_subrip_win
                &&& after.control_bar == self.control_bar
            },
            Event::ExportSrtSelected => {
                let cues = self.app_state.subrips@;
                &&& self.same_cues(after)
                &&& after.timeline == self.timeline
                &&& after.new_subrip_win == self.new_subrip_win
                &&& after.control_bar == self.control_bar
                &&& if 0 < cues.len() <= u32::MAX {
                    &&& requests == seq![Request::WriteFiles]
                    &&& exists|answers: Seq<Result<(), WriteError>>|
                        all_have_taken(
                            self.subrip_save_helper.writers@,
                            export_list(cues),
                            answers,
                            after.subrip_save_helper.writers@,
                        )
                } else {
                    &&& requests == Seq::<Request>::empty()
                    &&& none_has_taken(
                        self.subrip_save_helper.writers@,
                        after.subrip_save_helper.writers@,
                    )
                }
            },
            Event::TranslateByAiSelected => {
                &&& requests == match self.app_state.file_path_opening {
                    Some(path) => seq![Request::Translate(path)],
                    None => Seq::<Request>::empty(),
                }
                &&& self.same_cues(after)
                &&& self.same_writers(after)
                &&& after.timeline == self.timeline
                &&& after.new_subrip_win == self.new_subrip_win
                &&& after.control_bar == self.control_bar
            },
            Event::CreatedSubrip(subrip) => {
                &&& requests == Seq::<Request>::empty()
                &&& after.app_state.subrips@ == self.app_state.subrips@.push(subrip)
                &&& after.subrip_list_widget.item_widgets@.drop_last()
                    == self.subrip_list_widget.item_widgets@
                &&& after.subrip_list_widget.item_widgets@.len()
                    == self.subrip_list_widget.item_widgets@.len() + 1
                &&& is_row_of(
                    after.subrip_list_widget.item_widgets@.last(),
                    self.app_state.subrips@.len() as int,
                    subrip,
                )
                &&& self.same_writers(after)
                &&& after.timeline == self.timeline
                &&& after.new_subrip_win == self.new_subrip_win
                &&& after.control_bar == self.control_bar
            },
            Event::ToggleNewSubripWin => {
                &&& requests == Seq::<Request>::empty()
                &&& after.new_subrip_win.visible == !self.new_subrip_win.visible
                &&& after.new_subrip_win.title == self.new_subrip_win.title
                &&& after.new_subrip_win.subrip_text == self.new_subrip_win.subrip_text
                &&& self.same_cues(after)
                &&& self.same_writers(after)
                &&& after.timeline == self.timeline
                &&& after.control_bar == self.control_bar
            },
            Event::SubripLoaded(place) => {
                &&& requests == Seq::<Request>::empty()
                &&& self.same_cues(after)
                &&& self.same_writers(after)
                &&& after.new_subrip_win == self.new_subrip_win
                &&& after.control_bar == self.control_bar
                &&& after.timeline.model == self.timeline.model
                &&& after.timeline.state == self.timeline.state
                &&& after.timeline.screen_width == self.timeline.screen_width
                &&& after.timeline.default_height == self.timeline.default_height
                &&& after.timeline.player == self.timeline.player
                &&& if place < self.app_state.subrips@.len() {
                    &&& after.timeline.subrip_blocks@.len() == self.timeline.subrip_blocks@.len()
                        + 1
                    &&& after.timeline.subrip_blocks@.drop_last() == self.timeline.subrip_blocks@
                    &&& after.timeline.subrip_blocks@.last().subrip == place
                    &&& after.timeline.subrip_blocks@.last().state.dragging_mode == DragMode::Idle
                } else {
                    after.timeline.subrip_blocks == self.timeline.subrip_blocks
                }
            },
            Event::MediaDurationChanged(duration_s) => {
                &&& requests == Seq::<Request>::empty()
                &&& self.same_cues(after)
                &&& self.same_writers(after)
                &&& after.new_subrip_win == self.new_subrip_win
                &&& after.control_bar == self.control_bar
                &&& after.timeline.player == self.timeline.player
                &&& self.timeline_set_up(after, media_millis(duration_s as int))
            },
            Event::MediaLoaded(player) => {
                &&& requests == Seq::<Request>::empty()
                &&& self.same_cues(after)
                &&& self.same_writers(after)
                &&& after.new_subrip_win == self.new_subrip_win
                &&& after.control_bar.player == Some(player)
                &&& after.timeline.player == Some(player)
                &&& self.timeline_set_up(
                    after,
                    media_millis(self.timeline.model.media_duration_ms / 1000),
                )
            },
            Event::VideoSeeked(t) => {
                &&& requests == match self.monitor.player {
                    Some(_) => seq![Request::Player(PlayerCommand::Seek(t))],
                    None => Seq::<Request>::empty(),
                }
                &&& self.same_cues(after)
                &&& self.same_writers(after)
                &&& after.timeline == self.timeline
                &&& after.new_subrip_win == self.new_subrip_win
                &&& after.control_bar == self.control_bar
            },
            Event::ToggleMediaPlay | Event::BtnPlayClicked => {
                &&& requests == match self.monitor.player {
                    Some(player) => match play_command(player.state) {
                        Some(command) => seq![Request::Player(command)],
                        None => Seq::<Request>::empty(),
                    },
                    None => Seq::<Request>::empty(),
                }
                &&& self.same_cues(after)
                &&& self.same_writers(after)
                &&& after.timeline == self.timeline
                &&& after.new_subrip_win == self.new_subrip_win
                &&& after.control_bar == self.control_bar
            },
        }
    }

    /// Whether cue store and cue list are in `after` as they are in `self`.
    pub open spec fn same_cues(&self, after: MainWindow) -> bool {
        &&& after.app_state.subrips == self.app_state.subrips
        &&& after.subrip_list_widget == self.subrip_list_widget
    }

    /// Whether the writers are in `after` as they are in `self`.
    pub open spec fn same_writers(&self, after: MainWindow) -> bool {
        after.subrip_save_helper.writers == self.subrip_save_helper.writers
    }

    /// Whether the timeline of `after` is that of `self` once it has taken
    /// up media of `media_ms` milliseconds: blocks and remembered width
    /// stay, the granularity is the one at which the media fills the
    /// screen, and the window starts at the beginning of the media.
    pub open spec fn timeline_set_up(&self, after: MainWindow, media_ms: int) -> bool {
        &&& after.timeline.state == self.timeline.state
        &&& after.timeline.screen_width == self.timeline.screen_width
        &&& after.timeline.default_height == self.timeline.default_height
        &&& after.timeline.subrip_blocks == self.timeline.subrip_blocks
        &&& after.timeline.model.media_duration_ms == media_ms
        &&& after.timeline.model.millis_per_pixel == initial_granularity(
            media_ms,
            self.timeline.screen_width as int,
        )
        &&& (
        after.timeline.model.duration_range[0] as int,
        after.timeline.model.duration_range[1] as int,
        ) == window_for(
            0,
            after.timeline.model.millis_per_pixel * self.timeline.screen_width,
            media_ms,
        )
    }

    /// The main window of an editor that has just started: no cues, no
    /// media, and one writer, for SRT, that saves to `download_dir` or,
    /// where there is no such directory, to the working directory.
    pub fn new(download_dir: Option<String>) -> (r: Self)
        ensures
            r.wf(),
            r.app_state.subrips@.len() == 0,
            r.app_state.screen_width == SCREEN_WIDTH,
            r.app_state.screen_height == SCREEN_HEIGHT,
            r.app_state.file_path_opening is None,
            r.timeline.screen_width == SCREEN_WIDTH,
            r.timeline.subrip_blocks@.len() == 0,
            r.timeline.player is None,
            r.timeline.state.width == 0,
            r.timeline.model.millis_per_pixel == DEFAULT_GRANULARITY,
            r.timeline.model.media_duration_ms == 0,
            r.timeline.model.duration_range[0] == 0,
            r.timeline.model.duration_range[1] == 0,
            r.new_subrip_win.subrip_text@.len() == 0,
            r.monitor.media_path@.len() == 0,
            r.monitor.player is None,
            r.control_bar.player is None,
            !r.new_subrip_win.visible,
            r.subrip_list_widget.item_widgets@.len() == 0,
            r.subrip_save_helper.save_dir_path@ == match download_dir {
                Some(dir) => dir@,
                None => seq!['.', '/'],
            },
            r.subrip_save_helper.writers@.len() == 1,
            r.subrip_save_helper.writers@[0].received() == Seq::<Subrip>::empty(),
    {
        let app_state = AppState::new();
        let mut ret = Self {
            timeline: Timeline::new(app_state.screen_width),
            app_state,
            menu_bar: MenuBar::new(),
            new_subrip_win: NewSubripWindow::new(),
            subrip_list_widget: SubripListWidget::new(),
            monitor: Monitor::new(),
            control_bar: ControlBar::new(),
            subrip_save_helper: SubripSaveHelper::new(download_dir),
        };
        ret.init();
        ret
    }

    /// Gives the save helper its writer for SRT.
    fn init(&mut self)
        ensures
            final(self).app_state == old(self).app_state,
            final(self).menu_bar == old(self).menu_bar,
            final(self).new_subrip_win == old(self).new_subrip_win,
            final(self).subrip_list_widget == old(self).subrip_list_widget,
            final(self).timeline == old(self).timeline,
            final(self).monitor == old(self).monitor,
            final(self).control_bar == old(self).control_bar,
            final(self).subrip_save_helper.save_dir_path
                == old(self).subrip_save_helper.save_dir_path,
            final(self).subrip_save_helper.writers@.len()
                == old(self).subrip_save_helper.writers@.len() + 1,
            final(self).subrip_save_helper.writers@.last().received() == Seq::<Subrip>::empty(),
    {
        match SubripWriterBuilder::generate_writer_from_format(
            self.subrip_save_helper.save_dir_path(),
            SubripFormat::SRT,
        ) {
            Some(srt_writer) => {
                self.subrip_save_helper.add_writer(srt_writer);
            },
            None => {},
        }
    }

    /// What the keyboard lets the widgets know in one frame.
    pub fn update_input_event(ctrl_enter: bool, space: bool) -> (r: Vec<Event>)
        ensures
            r@ == key_events(ctrl_enter, space),
    {
        let mut events: Vec<Event> = Vec::new();
        if ctrl_enter {
            events.push(Event::ToggleNewSubripWin);
        }
        if space {
            events.push(Event::ToggleMediaPlay);
        }
        assert(events@ =~= key_events(ctrl_enter, space));
        events
    }

    /// Passes on what a widget lets the others know, to each widget that
    /// takes it, in the order in which they were connected. What comes
    /// back is left for the caller to do, in that order.
    pub fn emit(&mut self, event: Event) -> (r: Vec<Request>)
        requires
            old(self).wf(),
            event matches Event::CreatedSubrip(subrip) ==> subrip.wf(),
        ensures
            final(self).wf(),
            old(self).passes_on(event, *final(self), r@),
    {
        let mut requests: Vec<Request> = Vec::new();
        match event {
            Event::OpenSelected(path) => {
                requests.push(Request::OpenMedia(path));
                assert(requests@ =~= seq![Request::OpenMedia(path)]);
            },
            Event::ExportSrtSelected => {
                match self.subrip_save_helper.save(&self.app_state.subrips) {
                    Ok(answers) => {
                        requests.push(Request::WriteFiles);
                        assert(requests@ =~= seq![Request::WriteFiles]);
                        assert(all_have_taken(
                            old(self).subrip_save_helper.writers@,
                            export_list(old(self).app_state.subrips@),
                            answers@,
                            self.subrip_save_helper.writers@,
                        ));
                    },
                    Err(_) => {},
                }
            },
            Event::TranslateByAiSelected => {
                match &self.app_state.file_path_opening {
                    Some(path) => {
                        requests.push(Request::Translate(path.clone()));
                        assert(requests@ =~= seq![Request::Translate(*path)]);
                    },
                    None => {},
                }
            },
            Event::CreatedSubrip(subrip) => {
                let row = subrip.clone();
                let place = self.app_state.add_subrip(subrip);
                self.subrip_list_widget.add(place, &row);
            },
            Event::ToggleNewSubripWin => {
                self.new_subrip_win.toggle_visible();
            },
            Event::SubripLoaded(place) => {
                if place < self.app_state.subrips.len() {
                    self.timeline.add_block_from_subrip(place);
                    assert forall|i: int|
                        0 <= i < self.timeline.subrip_blocks@.len() implies (
                    #[trigger] self.timeline.subrip_blocks@[i]).subrip
                        < self.app_state.subrips@.len() by {
                        if i < old(self).timeline.subrip_blocks@.len() {
                            assert(self.timeline.subrip_blocks@[i] == self.timeline.subrip_blocks@
                                .drop_last()[i]);
                        }
                    }
                }
            },
            Event::MediaDurationChanged(duration_s) => {
                self.timeline.set_media_duration_s(&duration_s);
            },
            Event::MediaLoaded(player) => {
                self.timeline.set_player(&player);
                self.control_bar.set_player(&player);
            },
            Event::VideoSeeked(t) => {
                match self.monitor.seek(&t) {
                    Some(command) => {
                        requests.push(Request::Player(command));
                        assert(requests@ =~= seq![Request::Player(command)]);
                    },
                    None => {},
                }
            },
            Event::ToggleMediaPlay | Event::BtnPlayClicked => {
                match self.monitor.play() {
                    Some(command) => {
                        requests.push(Request::Player(command));
                        assert(requests@ =~= seq![Request::Player(command)]);
                    },
                    None => {},
                }
            },
        }
        requests
    }
}

} // verus!

//! What the widgets share: the cues, and the size of the screen.

use crate::subrip::Subrip;
use vstd::prelude::*;

verus! {

/// Width of the screen that the editor starts with.
pub const SCREEN_WIDTH: u32 = 1024;

/// Height of the screen that the editor starts with.
pub const SCREEN_HEIGHT: u32 = 720;

/// The state that the widgets share. The cues live here and nowhere else;
/// a widget that shows a cue holds its place in `subrips`. Cues are
/// never taken out, so that a place stays good.
#[derive(Debug)]
pub struct AppState {
    pub subrips: Vec<Subrip>,
    pub screen_width: u32,
    pub screen_height: u32,
    /// The media file that is open, if any.
    pub file_path_opening: Option<String>,
}

impl AppState {
    /// Every cue is well formed.
    pub open spec fn wf(&self) -> bool {
        forall|i: int| 0 <= i < self.subrips@.len() ==> (#[trigger] self.subrips@[i]).wf()
    }

    /// Whether every cue is well formed.
    pub fn is_wf(&self) -> (r: bool)
        ensures
            r == self.wf(),
    {
        let mut i: usize = 0;
        while i < self.subrips.len()
            invariant
                i <= self.subrips@.len(),
                forall|k: int| 0 <= k < i ==> (#[trigger] self.subrips@[k]).wf(),
            decreases self.subrips@.len() - i,
        {
            if !self.subrips[i].is_wf() {
                return false;
            }
            i = i + 1;
        }
        true
    }

    /// The state of an editor that has just started.
    pub fn new() -> (r: Self)
        ensures
            r.wf(),
            r.subrips@.len() == 0,
            r.screen_width == SCREEN_WIDTH,
            r.screen_height == SCREEN_HEIGHT,
            r.file_path_opening is None,
    {
        AppState {
            subrips: Vec::new(),
            screen_width: SCREEN_WIDTH,
            screen_height: SCREEN_HEIGHT,
            file_path_opening: None,
        }
    }

    /// Puts a cue after the cues that are there and returns its place.
    pub fn add_subrip(&mut self, subrip: Subrip) -> (r: usize)
        requires
            old(self).wf(),
            subrip.wf(),
        ensures
            final(self).wf(),
            r == old(self).subrips@.len(),
            final(self).subrips@ == old(self).subrips@.push(subrip),
            final(self).screen_width == old(self).screen_width,
            final(self).screen_height == old(self).screen_height,
            final(self).file_path_opening == old(self).file_path_opening,
    {
        let place = self.subrips.len();
        self.subrips.push(subrip);
        place
    }
}

impl Default for AppState {
    fn default() -> (r: Self)
        ensures
            r.wf(),
            r.subrips@.len() == 0,
            r.screen_width == 0,
            r.screen_height == 0,
            r.file_path_opening is None,
    {
        AppState { subrips: Vec::new(), screen_width: 0, screen_height: 0, file_path_opening: None }
    }
}

} // verus!

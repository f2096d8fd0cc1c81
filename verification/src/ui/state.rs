//! Which windows are shown.

use vstd::prelude::*;

verus! {

#[derive(Clone, Copy, Debug, PartialEq, Eq, Structural)]
pub struct State {
    pub show_create_new_subrip_win: bool,
    pub show_export_srt_file_win: bool,
}

impl Default for State {
    fn default() -> (r: Self)
        ensures
            !r.show_create_new_subrip_win,
            !r.show_export_srt_file_win,
    {
        Self { show_create_new_subrip_win: false, show_export_srt_file_win: false }
    }
}

} // verus!

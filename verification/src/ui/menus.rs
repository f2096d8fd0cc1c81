//! The state of the file menus.

use vstd::prelude::*;

verus! {

#[derive(Debug)]
pub struct FileMenus {
    /// The file picked for import, if any.
    pub import_file_path: Option<String>,
    pub state: FileMenusState,
}

#[derive(Clone, Copy, Debug, PartialEq, Eq, Structural)]
pub struct FileMenusState {
    pub show_export_srt_file_win: bool,
}

impl Default for FileMenusState {
    fn default() -> (r: Self)
        ensures
            !r.show_export_srt_file_win,
    {
        Self { show_export_srt_file_win: false }
    }
}

impl Default for FileMenus {
    fn default() -> (r: Self)
        ensures
            r.import_file_path is None,
            !r.state.show_export_srt_file_win,
    {
        Self { import_file_path: None, state: FileMenusState::default() }
    }
}

} // verus!

//! The menu bar: opening a media file and exporting the cues.

use vstd::prelude::*;

verus! {

/// The menu bar.
#[derive(Clone, Copy, Debug, PartialEq, Eq, Structural)]
pub struct MenuBar {}

/// What the user chose in the menus in one frame.
#[derive(Debug)]
pub struct MenuBarOutput {
    /// The media file picked in the file dialog.
    pub path_buf: Option<String>,
    /// Export to SRT was chosen.
    pub show_export_win_srt: bool,
    /// Transcription of the open media was chosen.
    pub translate_by_ai: bool,
}

/// What the menu bar asks for.
#[derive(Debug)]
pub enum MenuEvent {
    /// The media file at this path is to be opened.
    OpenSelected(String),
    /// The cues are to be exported as SRT.
    ExportSrtSelected,
    /// The open media is to be transcribed.
    TranslateByAiSelected,
}

impl Clone for MenuEvent {
    fn clone(&self) -> (r: Self)
        ensures
            r == *self,
    {
        match self {
            MenuEvent::OpenSelected(path) => MenuEvent::OpenSelected(path.clone()),
            MenuEvent::ExportSrtSelected => MenuEvent::ExportSrtSelected,
            MenuEvent::TranslateByAiSelected => MenuEvent::TranslateByAiSelected,
        }
    }
}

impl Default for MenuBarOutput {
    fn default() -> (r: Self)
        ensures
            r.path_buf is None,
            !r.show_export_win_srt,
            !r.translate_by_ai,
    {
        Self { path_buf: None, show_export_win_srt: false, translate_by_ai: false }
    }
}

impl Default for MenuBar {
    fn default() -> (r: Self)
        ensures
            r == (MenuBar {  }),
    {
        Self::new()
    }
}

/// What the menu bar asks for, given what was chosen: the opening of the
/// file picked, then the export, then the transcription, each only if
/// chosen.
pub open spec fn menu_events(output: Option<MenuBarOutput>) -> Seq<MenuEvent> {
    match output {
        None => Seq::empty(),
        Some(chosen) => {
            let open = match chosen.path_buf {
                Some(path) => seq![MenuEvent::OpenSelected(path)],
                None => Seq::empty(),
            };
            let export = if chosen.show_export_win_srt {
                open.push(MenuEvent::ExportSrtSelected)
            } else {
                open
            };
            if chosen.translate_by_ai {
                export.push(MenuEvent::TranslateByAiSelected)
            } else {
                export
            }
        },
    }
}

impl MenuBar {
    pub fn new() -> (r: Self)
        ensures
            r == (MenuBar {  }),
    {
        Self {  }
    }

    /// What was chosen in the open menu: the file that the dialog gave, if
    /// "open" was clicked and a file was picked; whether "SRT" was clicked
    /// under "export"; and whether "translate" was clicked. `picked` is what
    /// the file dialog answered; it is only looked at after a click on
    /// "open".
    pub fn nested_menus(
        open_clicked: bool,
        picked: Option<String>,
        srt_clicked: bool,
        translate_clicked: bool,
    ) -> (r: MenuBarOutput)
        ensures
            r.path_buf == if open_clicked {
                picked
            } else {
                None
            },
            r.show_export_win_srt == srt_clicked,
            r.translate_by_ai == translate_clicked,
    {
        let mut output = MenuBarOutput::default();
        if open_clicked {
            match picked {
                Some(path_buf) => {
                    output.path_buf = Some(path_buf);
                },
                None => {},
            }
        }
        if srt_clicked {
            output.show_export_win_srt = true;
        }
        if translate_clicked {
            output.translate_by_ai = true;
        }
        output
    }

    /// One frame of the menu bar: what it asks for, given what was chosen
    /// while the menu was open.
    pub fn draw(&self, output: Option<MenuBarOutput>) -> (r: Vec<MenuEvent>)
        ensures
            r@ == menu_events(output),
    {
        let mut events: Vec<MenuEvent> = Vec::new();
        match output {
            Some(chosen) => {
                match chosen.path_buf {
                    Some(path_buf) => {
                        events.push(MenuEvent::OpenSelected(path_buf));
                    },
                    None => {},
                }
                if chosen.show_export_win_srt {
                    events.push(MenuEvent::ExportSrtSelected);
                }
                if chosen.translate_by_ai {
                    events.push(MenuEvent::TranslateByAiSelected);
                }
            },
            None => {},
        }
        assert(events@ =~= menu_events(output));
        events
    }
}

} // verus!

//! Timeline viewport and cue-block engine of a subtitle editor: timed text
//! cues, the zoomable time window they are shown in, the gestures that move
//! and trim them, and their export as subtitle text.

pub mod ai;
pub mod app;

pub mod geometry;
pub mod io;
pub mod player;
pub mod request;
pub mod signals;
pub mod subrip;
pub mod text;
pub mod time;
pub mod ui;
pub mod utils;

pub use io::Writer;
pub use subrip::Subrip;

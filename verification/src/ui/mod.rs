//! The widgets of the editor, as far as they decide anything: what they
//! show and what they do with the pointer. Painting is left to the caller.

pub mod control_bar;
pub mod edit_subrip_window;
pub mod mainwindow;
pub mod menu_bar;
pub mod menus;
pub mod monitor;
pub mod new_subrip_window;
pub mod state;
pub mod subrip_list_item;
pub mod subrip_list_widget;
pub mod timeline;

pub use control_bar::ControlBar;
pub use mainwindow::MainWindow;
pub use menu_bar::MenuBar;
pub use monitor::Monitor;
pub use new_subrip_window::NewSubripWindow;
pub use subrip_list_item::SubripListItem;
pub use subrip_list_widget::SubripListWidget;
pub use timeline::subrip_block::SubripBlock;
pub use timeline::Timeline;

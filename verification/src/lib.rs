//! The logic of a fuzzy picker: ranking options against a query, moving a cursor through
//! the ranked list, laying the list out in a terminal area, and choosing what to show in
//! the preview pane beside it.

pub mod content;
pub mod draw_laws;
pub mod dynamic_picker;
pub mod file_picker;
pub mod frame;
pub mod fuzzy_match;
pub mod graphics;
pub mod input;
pub mod item;
pub mod key_laws;
pub mod laws;
pub mod list_laws;
pub mod movement;
pub mod path;
pub mod picker;
pub mod preview;
pub mod preview_cache;
pub mod ranking;
pub mod text;

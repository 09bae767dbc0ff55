//! Text-storage and view-mapping core of a terminal text editor.
//!
//! The crate models a document as a persistent piece tree, compares two
//! tree versions to find the minimal changed region, projects a byte range
//! of the document into wrapped display lines, and computes cursor and
//! viewport movement purely in view coordinates over that projection.

pub mod cursor;
pub mod edit_map;
pub mod editor;
pub mod file_open;
pub mod host_dirs;
pub mod layout_nav;
pub mod mapping;
pub mod path_util;
pub mod piece_tree;
pub mod piece_tree_diff;
pub mod plugin_backend;
pub mod selection;
pub mod settings;
pub mod text;
pub mod view_layout;
pub mod viewport;

pub use cursor::ViewPosition;

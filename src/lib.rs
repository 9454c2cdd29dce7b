//! Finds the entries of a directory tree whose base name matches a regular
//! expression, leaving out hidden entries and dependency directories
//! (`.git`, `node_modules`, `venv`) together with everything below them.
//!
//! The directory walk itself is done by the caller; this library decides
//! which entries the walk descends into and which paths are printed.

pub mod filter;
pub mod laws;
pub mod pattern;
pub mod walk;

pub use filter::{chars_of, contains_chars, is_hidden, is_library, should_prune, visit_entry};
pub use pattern::Pattern;
pub use walk::{resolve_root, ConfigError, Emit, Entry, Settings, WalkItem};

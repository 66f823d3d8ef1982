//! Theme synchronization: resolves the user's light/dark/system preference
//! against the operating system's reported color scheme, and decides when the
//! window manager has to be told, once per change.
//!
//! - `theme`: the theme types, the resolver and the mappings between them.
//! - `hook`: per-frame change detection.
//! - `observation`: the slot holding the last reported system theme.
//! - `watcher`: the decisions of the background watcher.
//! - `engine`: attach-once and teardown of an application's engine.
//! - `laws`: properties that hold across several calls.
pub mod engine;
pub mod hook;
pub mod laws;
pub mod observation;
pub mod theme;
pub mod watcher;

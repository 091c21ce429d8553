//! Core of a terminal file browser: a wrap-around selection cursor,
//! plain-value directory entries, and the navigation state machine that
//! keeps the current listing, the parent snapshot and the preview pane
//! consistent while the surrounding program performs the filesystem work.

pub mod bytesize;
pub mod cursor;
pub mod entry;
pub mod nav;
pub mod text;
pub mod timeconv;

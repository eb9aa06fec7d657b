//! Interactive-downloader core: the UI state machine, the progress channel
//! that a background worker fills, and the computations around one download
//! attempt (destination path, external-tool arguments, result filtering).

pub mod download;
pub mod progress;
pub mod state;

//! Verified core of a desktop panel applet that shows what a media player is playing.
//!
//! - [`model`]: the players found on the bus, the selected one and what is shown.
//! - [`media`]: which bus signals call for a new scan, when a scan is sent on, how a
//!   player's metadata is shown, and how an album-art URL becomes a local path.
//! - [`metadata`] and [`player`]: the active player's line and its album art, by way of
//!   a hand-decoded `file://` URL.
//! - [`settings`]: the stored settings and how they are read back.
//! - [`window`]: how each message changes the state and what the window has to do.
//! - [`ui`]: what the panel and the popup show.
//! - [`path`]: local paths compared by their components, as `std::path::Path` does.
//! - [`text`]: string and byte helpers.

pub mod text;
pub mod path;
pub mod settings;
pub mod model;
pub mod media;
pub mod player;
pub mod metadata;
pub mod window;
pub mod ui;

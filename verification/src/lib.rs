//! Volume / brightness on-screen-display helper library.
//!
//! The library holds the logic of a small desktop OSD tool: level
//! adjustment with clamping, parsing of the external tools' query output,
//! the wire codec for display requests sent to the overlay process, the
//! config-file format, the icon and level-bar presentation mapping, and
//! the overlay's debounced auto-hide state machine. Process spawning,
//! sockets, files and the GTK widget tree live outside the library.

pub mod brightness;
pub mod config;
pub mod display;
pub mod error;
pub mod overlay;
pub mod parse;
pub mod volume;

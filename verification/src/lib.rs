//! Core of a desktop status bar: widgets with cached render state are
//! multiplexed into a single, serialized, failure-isolated redraw pipeline.
//!
//! All decisions (debouncing, timer bookkeeping, formatting, layout) are
//! verified here; reading data sources and rendering are left to the caller,
//! which hands readings in as plain values.

pub mod active_window;
pub mod battery;
pub mod brightness;
pub mod disk;
pub mod hook;
pub mod layout;
pub mod statusbar;
pub mod text;
pub mod timer;
pub mod util;
pub mod volume;
pub mod weather;
pub mod widget;
pub mod wlan;

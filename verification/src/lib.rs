//! Core logic of a break-reminder tray application: a single-active-timer
//! scheduling engine, an idempotent overlay-window controller, settings
//! defaulting over a persisted key-value store, and the static tray-menu
//! command table. The asynchronous runtime, the window system and the
//! persisted store are external collaborators; this crate holds the
//! decisions and the state they act on.

pub mod store;
pub mod timer;
pub mod tray;
pub mod windows;

//! Verified core of a Pomodoro-style focus timer: the session state machine,
//! the preference and catalogue rules, and the per-day task list.
//!
//! Everything here is proved with Verus against the contracts it states. The
//! library does no input or output: the application around it reads files,
//! queries the task store, drives the audio device and the window, and hands
//! plain values in and out.
//!
//! Three private functions call outside crates and are believed, not proved:
//! `themes::parse_hex_channels` (`hex_color`), and `tasks::format_utc_timestamp`
//! and `tasks::format_utc_date` (`chrono`).
//!
//! - [`session`]: the phases of a session, intents, ticks and progress.
//! - [`settings`]: the preferences, their validity and their defaults.
//! - [`themes`], [`songs`]: the two catalogues.
//! - [`tasks`]: tasks, their stored form, and the list of a day.
//! - [`window`]: the state behind the window and the decisions of the user
//!   interface controller.
//! - [`progress`]: the progress ring.
//! - [`errors`]: the kinds of failure and the reaction to each.
//! - [`sorting`], [`text`]: ordering and text helpers that the others share.

pub mod errors;
pub mod progress;
pub mod session;
pub mod settings;
pub mod songs;
pub mod sorting;
pub mod tasks;
pub mod text;
pub mod themes;
pub mod window;

//! The decisions behind `frb run`, which runs a Flutter app with a Rust library
//! and keeps it in sync with changes of either.
//!
//! - [`change_kind`] classifies changed files into the action they require.
//! - [`watcher`] says what to watch.
//! - [`keys`] translates key presses, and remembers what the toggles are set to.
//! - [`daemon`] speaks the protocol of `flutter run --machine`.
//! - [`rebuild`] orders the parts of a rebuild.
//! - [`session`] puts them together: what to do about each event, and in which
//!   order a process is started and torn down.
//!
//! Paths are those of [`path`], JSON values those of [`json`], and [`text`]
//! holds what is needed of strings. Nothing here reads, writes, waits or spawns.

pub mod change_kind;
pub mod daemon;
pub mod json;
pub mod keys;
pub mod path;
pub mod rebuild;
pub mod session;
pub mod text;
pub mod watcher;

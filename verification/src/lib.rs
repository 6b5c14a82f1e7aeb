//! Core of a terminal client for browsing a hierarchical object store:
//! the navigation state machine, the per-path listing cache, the viewport
//! arithmetic for the visible list window, and the request/completion
//! protocol that lets a single-threaded UI apply the results of
//! long-running remote calls one at a time.

pub mod app;
pub mod error;
pub mod event;
pub mod item;
pub mod object_preview;
pub mod text_preview;
pub mod util;

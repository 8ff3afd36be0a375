//! Decision core of a reparenting window manager.
//!
//! The core receives window-system protocol events (as plain values), keeps
//! the mapping between application windows and the decorated frames that
//! manage them, converts window geometry between the application and frame
//! coordinate spaces, and drives move/resize interactions through an explicit
//! drag state machine. It emits the outbound protocol requests as plain
//! values; performing them on a live connection is the caller's concern.

pub mod client;
pub mod client_map;
pub mod config;
pub mod container;
pub mod domain;
pub mod drag;
pub mod executor;
pub mod geometry;
pub mod handler;
pub mod hints;
pub mod middle;
pub mod request;
pub mod visual;

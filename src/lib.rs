//! Editor-side bridge between a text editor and an external coding agent.
//!
//! The library holds the logic of the bridge: the two wire dialects and the
//! method router, the broadcast hub, change suppression for editor-observed
//! notifications, debouncing, the connection heartbeat, the authenticating
//! handshake and the server lifecycle. Everything that touches the editor,
//! the disk or the network hands this library plain values.
use vstd::prelude::*;

pub mod util;
pub mod text;
pub mod errors;
pub mod json;
pub mod rpc;
pub mod ide_ops;
pub mod commands;
pub mod router;
pub mod hub;
pub mod notifications;
pub mod debounce;
pub mod connection;
pub mod auth;
pub mod lifecycle;
pub mod lockfile;
pub mod diagnostics;
pub mod selection;
pub mod visible_files;
pub mod uri;
pub mod events;
pub mod ffi;

//! Core of a small live-reload development web server.
//!
//! The library holds the logic of the server: path handling for the files it
//! serves, the change detector that filters and debounces filesystem events,
//! the broadcast hub that fans a change signal out to connected browsers, the
//! lifecycle of the watcher, and the framing of the push protocol. The
//! surrounding process (argument reading, sockets, the event loop) lives
//! outside and hands the library plain values.

pub mod strutil;
pub mod paths;
pub mod content_type;
pub mod opts;
pub mod detector;
pub mod hub;
pub mod channel;
pub mod watcher;
pub mod transport;

//! Core logic of a small live-reload static file server: request-path
//! classification, directory-listing rendering, reload-script injection,
//! debounced change detection and broadcast fan-out to reload connections.

pub mod fanout;
pub mod classify;
pub mod config;
pub mod counter;
pub mod handler;
pub mod listing;
pub mod live;
pub mod paths;
pub mod watch;
pub mod xts;

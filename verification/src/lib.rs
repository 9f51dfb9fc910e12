//! A split-horizon DNS resolver core and transparent TCP router core.
//!
//! The library holds the decisions and the byte-level formats; sockets, TLS,
//! the cache connection and task scheduling belong to the program around it.
pub mod dns;
pub mod router;
pub mod text;

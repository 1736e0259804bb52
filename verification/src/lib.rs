//! A verified core for an HTTP echo/inspector service.
//!
//! For every inbound request the service derives diagnostic metadata
//! (client IP, timing, identity, protocol details) and a structured,
//! content-type-aware decoding of the request body, and assembles it all
//! into one diagnostic response. Malformed input is reported as data, never
//! raised as a fault: every decode path yields a tagged value.

pub mod text;
pub mod client_ip;
pub mod outside;
pub mod body;
pub mod multipart;
pub mod response;

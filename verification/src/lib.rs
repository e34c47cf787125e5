//! The request-handling core of a configurable HTTP echo server: request
//! identifiers, payload padding, the log block of an inbound request and the
//! timed, padded JSON response.

pub mod alphabet;
pub mod config;
pub mod exchange;
pub mod id;
pub mod json;
pub mod logging;
pub mod padding;
pub mod response;

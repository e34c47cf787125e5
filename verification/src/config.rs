//! The configuration of the server, fixed at startup and shared read-only by
//! all requests.

use vstd::prelude::*;

verus! {

/// What a deployment can set: whether requests are logged, how long to wait
/// before the headers and before the body of a response, and how large to
/// make them.
#[derive(Clone, Copy, Debug)]
pub struct Config {
    /// No log output for any request.
    pub quiet: bool,
    /// Milliseconds to wait before the headers of a response are sent.
    pub delay_headers: Option<u64>,
    /// Milliseconds to wait before the body of a response is sent.
    pub delay_body: Option<u64>,
    /// The size in bytes to bring the head of a response to.
    pub size_headers: Option<usize>,
    /// The size in bytes to bring the body of a response to.
    pub size_body: Option<usize>,
}

impl Config {
    /// The milliseconds to wait before the headers; none where no delay is
    /// set.
    pub open spec fn header_delay(self) -> nat {
        match self.delay_headers {
            Some(ms) => ms as nat,
            None => 0,
        }
    }

    /// The milliseconds to wait between the headers and the body; none where
    /// no delay is set.
    pub open spec fn body_delay(self) -> nat {
        match self.delay_body {
            Some(ms) => ms as nat,
            None => 0,
        }
    }
}

} // verus!

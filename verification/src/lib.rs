//! Core logic for a screen-capture pipeline: correlating asynchronous broker
//! responses, driving the capture-session handshake, validating negotiated
//! stream formats, and relaying the newest captured frame to a renderer.

pub mod capture;
pub mod correlation;
pub mod format;
pub mod protocol;
pub mod relay;
pub mod session;

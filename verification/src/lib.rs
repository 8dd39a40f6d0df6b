//! Capture-side core of a live audio spectrum pipeline: frame decoding, the
//! sliding sample window, the ready/result handshake between the capture
//! thread and its consumer, and the session lifecycle.

pub mod capture;
pub mod config;
pub mod decode;
pub mod error;
pub mod link;
pub mod protocol;
pub mod ring;
pub mod session;
pub mod source;

//! Control facade for a single long-lived voice session.
//!
//! The library models the session state that the facade is responsible for:
//! connection status, mute flag, bitrate target, the set of active playback
//! sources, and the installed configuration value. Every operation is a
//! verified state transition; the asynchronous plumbing that carries these
//! operations between the host scheduler and the native scheduler, and the
//! calls into the external voice engine, live outside the library and feed
//! their outcomes back in as plain values.

pub mod activation;
pub mod bitrate;
pub mod connection;
pub mod endpoint;
pub mod errors;
pub mod session;

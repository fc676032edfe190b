//! Calibration, telemetry-decoding, and motion-capture engine for a chain of
//! register-addressed smart servos.
//!
//! The crate interprets raw register words into signed physical values,
//! derives per-joint calibration (center offset and travel limits) from a
//! pair of sampled positions, persists registers with a write-verify-retry
//! sequence, records multi-frame motion captures, and tracks per-servo
//! liveness. All transport I/O goes through the [`transport::Transport`]
//! capability trait, which the host provides.

pub mod calibration;
pub mod capture;
pub mod codec;
pub mod json;
pub mod liveness;
pub mod persist;
pub mod poll;
pub mod settings;
pub mod telemetry;
pub mod transport;

//! Capture and throttling core for a system-wide input-device activity stream.
//!
//! The library normalizes raw OS input events (mouse buttons, mouse motion,
//! keyboard keys) into a small event model, rate-limits high-frequency mouse
//! motion, and decides the lifecycle of the single background capture loop.
//! The OS hook itself and the consumer-facing dispatch are external
//! collaborators; this crate holds the verified decision logic between them.

pub mod capture;
pub mod event;
pub mod listener;
pub mod throttle;

//! Ownership core for handles of the OpenHarmony `native_vsync` service.
//!
//! The native service hands out one opaque handle per vsync connection. A
//! handle has to be destroyed exactly once, and it can be passed through the
//! user-data slot of a frame callback, which then answers for it. This crate
//! holds the rules of that hand-over and nothing else: it never touches the
//! native service. A driver makes the native calls, tells the wrapper what
//! the service answered, and carries out what the wrapper decides, above all
//! which handle to destroy and when.

pub mod error;
pub mod laws;
pub mod name;
pub mod ownership;
pub mod vsync;

pub use error::NativeVsyncError;
pub use ownership::{Event, Ownership, Step};
pub use vsync::{FrameRequest, NativeVsync};

//! A verified core for embedding a scripting runtime in a frame-based host.
//!
//! The host owns a transient, per-frame UI-construction context. Scripts may
//! touch that context only through an opaque, tag-validated handle that is
//! reissued every frame (`bridge`). The native commands a script may call,
//! and the checks they perform on their arguments, live in `registry`. The
//! per-frame execution state machine that drives one script run from source
//! to outcome lives in `driver`.

pub mod bridge;
pub mod driver;
pub mod registry;

pub use bridge::FrameBridge;
pub use bridge::FrameHandle;

//! Real-time audio playback synchronization core.
//!
//! The crate decouples a jitter-prone network audio source from a local
//! audio device whose clock runs independently: decoded PCM flows through a
//! fixed-capacity ring buffer, while a feedback rate controller nudges the
//! resampling target rate to compensate for clock drift.  All decisions
//! (buffering, rate control, volume, command ordering, session lifecycle)
//! are verified; device output and codec decoding are left to the caller.

pub mod codec;
pub mod engine;
pub mod rate;
pub mod ring;
pub mod session;
pub mod volume;

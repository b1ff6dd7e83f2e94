//! Front end of a voice pipeline: wire frames are decoded into sample batches,
//! a per-session voice activity detector segments them into utterances, and
//! the boundaries of each utterance are reported as protocol messages.
//!
//! Samples, energies and thresholds are IEEE-754 binary32 values held as their
//! bit patterns (`u32`), so every rule of the detector is stated over integers.

pub mod amplitude;
pub mod codec;
pub mod models;
pub mod runs;
pub mod session;
pub mod vad;

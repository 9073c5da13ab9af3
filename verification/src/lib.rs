//! Core of a dual-source audio capture pipeline.
//!
//! Live audio arrives from two independently started and stopped backends:
//! an input-device (microphone) session and an output-loopback session.
//! Each session normalizes raw samples to canonical signed 16-bit
//! little-endian PCM, slices them into fixed-size chunks, and hands the
//! chunks to the caller for best-effort delivery to a listener. A capture
//! controller owns one boolean capture flag per session type; the flag
//! gates both session startup (duplicate starts are rejected) and
//! per-callback continuation (samples are dropped once the flag clears).
//!
//! The host shell around this crate performs the actual device I/O and
//! event delivery; everything here is plain logic on plain values.

pub mod chunk;
pub mod controller;
pub mod device;
pub mod loopback;
pub mod normalize;
pub mod paths;
pub mod session;
pub mod types;

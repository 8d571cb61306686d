//! Core logic of a point-to-point PCM audio streamer.
//!
//! One endpoint captures audio from a device, slices it into fixed-size
//! chunks and sends each chunk as one datagram; the other receives
//! datagrams and plays them back, masking missing data with silence.
//! This crate holds the verified heart of that pipeline: format
//! arithmetic, the byte buffer each stage owns, the bounded chunk queue
//! connecting stages, and the per-stage step logic. Device access,
//! sockets and threads live outside, in the thin program shell.

pub mod bridge;
pub mod buffer;
pub mod capture;
pub mod config;
pub mod format;
pub mod net;
pub mod playback;
pub mod queue;
pub mod stage;

//! Core of an interactive image viewer: the asynchronous image acquisition
//! and presentation pipeline.
//!
//! The crate covers the pieces that carry the real engineering risk and
//! proves their contracts:
//!
//! - exact rational arithmetic backing the view-space transform, so that the
//!   window/image coordinate mappings are exact inverses of each other;
//! - the view transform itself (fit-to-window reset, cursor-anchored zoom,
//!   pan, resize) together with proofs of the round-trip and zoom-anchoring
//!   laws;
//! - decoded pixel buffers and the ordered pixel-operation stack with its
//!   singleton and mutation protocol;
//! - animation frame sequencing with exact, index-stable looping;
//! - the frame channel and the presentation session that drains it, with the
//!   generation counter that discards stale loads.
//!
//! File and socket I/O, threads and the GUI shell stay outside the crate;
//! they hand bytes and events in and take plain values back.

pub mod animation;
pub mod channel;
pub mod decode;
pub mod buffer;
pub mod ops;
pub mod rational;
pub mod receiver;
pub mod session;
pub mod transform;

//! Policy and protocol core of a real-time AV1 screen-sharing codec.
//!
//! The crate derives a complete encoder configuration from a small set of
//! user-facing knobs (resolution, quality tier, keyframe interval, thread
//! count), models the encoder and decoder session lifecycle, and drives the
//! cursor-based extraction protocol that turns the engine's buffered output
//! into a finite sequence of compressed frames or decoded images.
//!
//! The native engine itself (context creation, compression, decompression)
//! is an outside collaborator reached over raw handles; the surrounding
//! program performs those calls and feeds their results back into the
//! verified state machines defined here.

pub mod config;
pub mod controls;
pub mod decoder;
pub mod encoder;
pub mod error;
pub mod extract;
pub mod image;
pub mod quality;

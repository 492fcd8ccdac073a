//! Decoder for segment-layout configuration documents.
//!
//! A document, given as a dynamically typed value tree, is decoded into a
//! strongly typed recursive tree of segments describing how a flat binary
//! image is partitioned, together with a small family of virtual-address
//! placement classes shared across segments.

pub mod coerce;
pub mod decode;
pub mod document;
pub mod error;
pub mod hex;
pub mod laws;
pub mod plugin;
pub mod segment;
pub mod value;
pub mod vram;

//! Core logic of a small 2D platformer prototype: sprite-sheet animation,
//! keyboard-driven horizontal player movement, a hard-locked follow camera
//! and a frame-rate overlay, composed over an explicit entity arena.
//!
//! Windowing, rendering, asset decoding, input devices and rigid-body
//! physics integration are delegated to a host engine; this crate holds the
//! world state and the per-frame update rules, with machine-checked
//! contracts. Positions are kept in millipixels and times in milliseconds
//! so that every rule is exact integer arithmetic.

pub mod animation;
pub mod overlay;
pub mod player;
pub mod transform;
pub mod world;

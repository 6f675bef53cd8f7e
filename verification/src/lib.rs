//! A greeting-card scene library: a small entity store holding a camera and
//! two text blocks, a time-driven color animator, and a frame-rate reporter
//! that formats a smoothed sample into a text segment.
//!
//! The host window and renderer live outside this crate; the library owns
//! the scene model, the greeting text, the color function and the
//! frame-rate formatting, and states what each frame does to the store.

pub mod animate;
pub mod color;
pub mod fps;
pub mod greeting;
pub mod scene;

//! Menu cursor synchronization: the rules by which a single selected index is
//! derived from keyboard presses and pointer hover, and by which the visual
//! cursor marker is kept at the selected entry's position.
//!
//! The host engine (windowing, camera, text rendering, the frame loop itself)
//! is an external collaborator: it delivers key-press edge events, the latest
//! pointer position already mapped to world coordinates, and runs the
//! per-frame pipeline. This crate holds the logic that decides, each frame,
//! which entry is selected and where the cursor marker stands.

pub mod cursor;
pub mod frame;
pub mod geometry;
pub mod registry;

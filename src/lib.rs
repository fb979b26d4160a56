//! Core logic of a "Simon says" memory game: pointer hit-testing over
//! rectangles and triangles, per-shape hover tracking, the pattern engine
//! that plays back and judges a growing sequence, the scene state machine,
//! and the persisted best score.

pub mod geometry;
pub mod hover;
pub mod timer;
pub mod scene;
pub mod pattern;
pub mod score;
pub mod layout;
pub mod frame;

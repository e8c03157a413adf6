//! Timing, position and draw-data core of a rhythm-game client.
//!
//! Every real-valued quantity (seconds, track depth, lateral position, tempo,
//! speed, colour channel) is a fixed-point number: an `i64` that counts
//! millionths, so that `fixed::UNIT` stands for one.
pub mod chart;
pub mod error;
pub mod fixed;
pub mod geometry;
pub mod mosv;
pub mod ogkr;
pub mod raw;
pub mod render_description;
pub mod timeline;
pub mod track_description;
pub mod track_renderer;

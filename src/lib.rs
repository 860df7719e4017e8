pub mod geometry;
pub mod interaction;
pub mod laws;
pub mod render;

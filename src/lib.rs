//! Per-frame rules of a small top-down 2D game: key input to thrust, the exact
//! integer parts of motion and friction, sensor highlighting, and the
//! composition of the world built at startup.
pub mod color;
pub mod input;
pub mod motion;
pub mod world;

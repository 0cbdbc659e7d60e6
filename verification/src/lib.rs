//! A minimal retained-mode view toolkit: a tree of rectangular view nodes
//! with color and frame state, laid out by recursive translation of local
//! frames into screen coordinates, and hit-tested against touch input.
pub mod dpad_view;
pub mod events;
pub mod geometry;
pub mod input;
pub mod screen;
pub mod view;

//! Camera view state and clear-pass planning for a render graph.

pub mod target;
pub mod registry;
pub mod camera;
pub mod clear_pass;

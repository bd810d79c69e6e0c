//! The camera state machine and the render-pass engine.

pub mod camera;
pub mod render_pass;

//! Coordination core of a two-thread real-time renderer: the state cells
//! shared between the event thread and the render thread, the decisions
//! each thread takes on them, and the fixed command sequences handed to
//! the graphics layer.

pub mod dispatch;
pub mod health;
pub mod keys;
pub mod mesh;
pub mod mouse;
pub mod render;
pub mod window;

//! Per-frame interaction and physics coordination for a VR scene.
//!
//! Every interactive object registers spatial queries and physics bodies
//! during a frame and receives tickets. Once all objects have submitted, the
//! frame is resolved exactly once, and every ticket is answered from the one
//! frozen reply.
pub mod interact;
pub mod moveable;
pub mod physics;
pub mod frame;
pub mod grabable;
pub mod apps;
pub mod ui;

//! Coordination layer between a scripting host and a GPU particle backend:
//! the scene of colliders, the spawn and event queues, the CPU-side view of
//! the backend buffers and the per-tick bookkeeping that fills them.
pub mod vec;
pub mod collider;
pub mod scene;
pub mod particle;
pub mod event;
pub mod geometry;
pub mod juice;

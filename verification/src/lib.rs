//! Verified core of the snake engine: the queues, caches, registries and
//! decision rules that drive the renderer, kept apart from the GPU and window
//! plumbing that performs them.

pub mod cmd;
pub mod drw;
pub mod ecs;
pub mod geom;
pub mod gpu;
pub mod render;
pub mod res;
pub mod threading;
pub mod utils;

//! The renderer's own decisions, apart from the GPU work they drive: when a
//! frame is drawn and what must be rebuilt for it, the order drawables are
//! prepared in, and what a render task does with a published frame.

pub mod frame;
pub mod queue;
pub mod target;
pub mod task;

//! Verified core of the storyboard graphics toolkit: change tracking,
//! vertex and index batching, text segmentation and line layout, glyph atlas
//! bookkeeping, texture views, and the renderer's frame decisions.

pub mod observable;
pub mod data;
pub mod text;
pub mod packer;
pub mod texture;
pub mod batch;
pub mod buffer;
pub mod tick_task;
pub mod unit;
pub mod extent;
pub mod primitive;
pub mod frame;
pub mod render;

//! Core of an audio-reactive deferred renderer: the frame sequencing state
//! machine, swapchain recreation planning, the real-time audio analysis step,
//! the shared spectrum snapshot and a keyed resource pool.

pub mod audio;
pub mod frame;
pub mod realtime;
pub mod resource_pool;
pub mod spectrum;
pub mod swapchain;

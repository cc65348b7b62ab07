//! Verified core of a GPU renderer: image synchronization-state tracking and
//! barrier elision, command recording, staging uploads, swapchain negotiation
//! and the multi-frame pacing loop, all modelled over plain values. The
//! unverified driver around this crate owns the device handles and performs
//! the recorded work.

pub mod buffer;
pub mod commands;
pub mod context;
pub mod image;
pub mod staging_belt;
pub mod swapchain;
pub mod sync_state;
pub mod types;
pub mod window_renderer;

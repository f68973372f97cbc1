//! A verified model of a minimal frames-in-flight renderer.
//!
//! The library owns the decision logic of the render loop: frame-slot
//! cycling, fence throttling, image-layout transition planning, clear
//! versus load resolution, render-area selection, swapchain parameter
//! selection and queue-family selection.  GPU objects appear as plain
//! handle values; every GPU-side effect is emitted as data (a script of
//! commands) that an unverified driver layer replays against the real
//! graphics API.

pub mod command_buffer;
pub mod error;
pub mod geometry;
pub mod image_state;
pub mod primary_renderer;
pub mod queue_family;
pub mod render_target;
pub mod shader;
pub mod swapchain;
pub mod window;

//! The frame orchestration of a deferred-shading renderer: the G-buffer
//! policy and its resize-driven rebuild, the two-subpass render pass
//! description, and the state machine that walks a frame through its
//! subpasses to the final chained submission.

pub mod format;
pub mod gbuffer;
pub mod render_pass;
pub mod render_system;

//! Core of a minimal real-time renderer for an explicit, Vulkan-class
//! graphics API: the device/queue/command-pool context, tracked-state GPU
//! images with an explicit transition protocol, the offscreen render stage
//! (render pass, pipeline, framebuffer, per-frame command buffer), the
//! presentation stage, and the fixed-timestep frame scheduler.
//!
//! Every GPU object is modelled by plain data — handles, dimensions, formats,
//! and the tracked {access, layout, stage} triple — so that the resource
//! lifecycle, the barrier protocol, command-recording balance, descriptor
//! pool accounting, and teardown ordering are all stated and proved here.
//! The raw graphics-API calls that realise these models live outside the
//! library, in the surrounding application.

pub mod command;
pub mod device;
pub mod error;
pub mod frame;
pub mod image;
pub mod mainpass;
pub mod pipeline;
pub mod present;
pub mod scheduler;

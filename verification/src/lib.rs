//! The logic of a bridge between an immediate-mode GUI library, a GPU
//! renderer and a window system, with every decision stated and proved.
//!
//! The bridge itself touches no device and no window. It is handed plain
//! values and hands plain values back:
//!
//! - [`keys`], [`buttons`] and [`input`] translate the window system's input
//!   into writes to the GUI's input model and decide what the host
//!   application still gets to see;
//! - [`bridge`] keeps the frame cycle, the font texture and the capacity of
//!   the geometry buffers of every swapchain image;
//! - [`geometry`] sizes those buffers and lays the draw lists out in them;
//! - [`clip`], [`transform`] and [`commands`] turn a frame's draw lists into
//!   the calls on the command buffer.

pub mod bridge;
pub mod buttons;
pub mod clip;
pub mod commands;
pub mod draw_data;
pub mod geometry;
pub mod input;
pub mod keys;
pub mod transform;

pub use crate::bridge::HalaImGui;

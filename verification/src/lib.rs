//! The render core of a desktop overlay: a transparent, click-through,
//! always-on-top window that shows an animated shader over the desktop.
//!
//! The core owns no window and no GPU handle. It decides what reaches the
//! GPU and when:
//!
//! - [`format`] chooses the surface's texture format among those offered;
//! - [`surface`] holds the surface's configuration;
//! - [`uniforms`] holds the per-frame uniform record and lays out its bytes;
//! - [`pipeline`] describes the render pipeline and the pass of a frame;
//! - [`context`] ties these together and takes resizes and updates;
//! - [`frame_loop`] turns the host's notifications and the results of image
//!   acquisition into commands for the GPU;
//! - [`theorems`] states what holds of the context and the loop over runs.

pub mod context;
pub mod format;
pub mod frame_loop;
pub mod pipeline;
pub mod surface;
pub mod theorems;
pub mod uniforms;

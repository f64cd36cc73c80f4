//! Decisions of a windowed Vulkan program that relays one texel grid between two images.
//!
//! Every frame a compute task reads the source image and writes the destination image, a
//! triangle task shows the destination image, and the two images change roles.  This crate
//! holds what such a program decides: which physical device it runs on, what its images,
//! swapchain and task graph look like, which commands its tasks record, and how its state
//! moves from one window event to the next.  The work on the devices themselves belongs to
//! the program around it.
#![allow(unused_imports)]

pub mod buffer;
pub mod compute;
pub mod debug;
pub mod device;
pub mod graph;
pub mod graphics;
pub mod image;
pub mod laws;
pub mod pixel;
pub mod render;
pub mod swapchain;
pub mod vulkan;

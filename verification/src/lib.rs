//! Decision logic of a windowed renderer that draws one static coloured quad.
//!
//! The renderer picks an accelerator, builds a chain of presentable images
//! for its window, and then draws the same quad frame after frame, rebuilding
//! the chain whenever it stops matching the window. This crate holds what
//! there is to decide in that, as verified functions on plain values; talking
//! to the window and to the graphics device is left to the program that uses
//! it.
//!
//! - [`bootstrap`]: which accelerator and queue family to run on.
//! - [`surface`]: the parameters of the chain of images for a given surface.
//! - [`swapchain`]: the chain with its framebuffers and the viewport, which
//!   are replaced together.
//! - [`geometry`]: the vertices and indices of the quad.
//! - [`commands`]: the commands recorded for a frame.
//! - [`frame_loop`]: the protocol of a frame, as a state machine that is fed
//!   events and answers with the action to take.

pub mod bootstrap;
pub mod commands;
pub mod frame_loop;
pub mod geometry;
pub mod surface;
pub mod swapchain;

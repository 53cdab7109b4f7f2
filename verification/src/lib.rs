//! Decision logic of a Vulkan Mandelbrot renderer: choosing a physical
//! device and queue family, sizing the compute dispatch and the image
//! readback, and the input/frame state machine of the interactive viewer.

pub mod device_select;
pub mod frame;
pub mod viewer;

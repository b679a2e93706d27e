//! Decisions and bookkeeping of a small Vulkan demo: image sizes and compute
//! dispatch, queue selection, the texture staging copy, and the swapchain
//! present loop as a state machine. The GPU and window calls themselves live
//! in the program around this library.
pub mod extent;
pub mod frame_loop;
pub mod queue;
pub mod staging;

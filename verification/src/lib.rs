//! Host-side logic of the stilb light baker: submit pacing for compute
//! dispatches, mesh assembly from the C interface, the bookkeeping of GPU
//! resources, and the Vulkan configuration chosen at start-up.
//!
//! The Vulkan device calls themselves (creating, uploading, releasing) are
//! made by the caller; the types here hold the raw handle values and decide
//! what has to be created or released.

pub mod config;
pub mod mesh;
pub mod pacer;
pub mod texture2d;
mod handles;

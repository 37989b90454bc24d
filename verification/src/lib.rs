//! Frame-loop, synchronisation and resource-layout core of a small Vulkan
//! renderer, with every rule stated as a contract and proved.
//!
//! The library holds no GPU handle it could use itself: handles are carried as
//! the raw 64-bit values that Vulkan gives them, and every operation that the
//! device has to perform is returned as a value for the caller to execute.

pub mod app;
pub mod camera;
pub mod model;
pub mod pbr;
pub mod vulkan;

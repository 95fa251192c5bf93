//! Capability negotiation and resource lifecycle for bringing up a Vulkan
//! rendering context on a native window surface.
//!
//! The library decides; it never touches the driver. Callers probe the
//! device and the surface, hand the facts over as plain values, and get back
//! the creation payloads and the order in which handles are acquired and
//! released.

pub mod constants;
pub mod error;
pub mod util;
pub mod vulkan;

pub mod device;
pub mod instance;
pub mod lifecycle;
pub mod names;
pub mod pipeline;
pub mod render;
pub mod swapchain;
pub mod types;

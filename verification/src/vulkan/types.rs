use vstd::prelude::*;

verus! {

/// `VK_FORMAT_B8G8R8_SRGB`, as the driver numbers it.
pub const FORMAT_B8G8R8_SRGB: i32 = 36;

/// `VK_COLOR_SPACE_SRGB_NONLINEAR_KHR`, as the driver numbers it.
pub const COLOR_SPACE_SRGB_NONLINEAR: i32 = 0;

/// `VK_PRESENT_MODE_MAILBOX_KHR`: the newest frame replaces the one waiting.
pub const PRESENT_MODE_MAILBOX: i32 = 1;

/// `VK_PRESENT_MODE_FIFO_KHR`: the one mode every surface must offer.
pub const PRESENT_MODE_FIFO: i32 = 2;

/// The width a surface reports when its size is decided by the swapchain.
pub const UNDEFINED_EXTENT: u32 = 0xFFFF_FFFF;

/// A size in pixels.
#[derive(Clone, Copy, Debug, PartialEq, Eq, Structural)]
pub struct Extent2D {
    pub width: u32,
    pub height: u32,
}

/// A pixel format together with the colour space it is shown in, both as
/// the driver's raw numbers.
#[derive(Clone, Copy, Debug, PartialEq, Eq, Structural)]
pub struct SurfaceFormat {
    pub format: i32,
    pub color_space: i32,
}

/// What a surface reports of itself, as far as the negotiation reads it.
#[derive(Clone, Copy, Debug, PartialEq, Eq, Structural)]
pub struct SurfaceCapabilities {
    pub min_image_count: u32,
    /// Zero when the surface sets no upper bound.
    pub max_image_count: u32,
    /// Width [`UNDEFINED_EXTENT`] when the swapchain decides the size.
    pub current_extent: Extent2D,
    pub min_image_extent: Extent2D,
    pub max_image_extent: Extent2D,
    /// Raw transform bits, handed through to the swapchain unchanged.
    pub current_transform: u32,
}

/// How the swapchain images are shared between queue families.
#[derive(Clone, Copy, Debug, PartialEq, Eq, Structural)]
pub enum SharingMode {
    Exclusive,
    Concurrent,
}

/// What the swapchain images are used for.
#[derive(Clone, Copy, Debug, PartialEq, Eq, Structural)]
pub enum ImageUsage {
    TransferSource,
    TransferDestination,
    Sampled,
    ColorAttachment,
}

/// How the window system blends the surface with what lies behind it.
#[derive(Clone, Copy, Debug, PartialEq, Eq, Structural)]
pub enum CompositeAlpha {
    Opaque,
    PreMultiplied,
    PostMultiplied,
    Inherit,
}

/// The dimensionality of an image view.
#[derive(Clone, Copy, Debug, PartialEq, Eq, Structural)]
pub enum ImageViewType {
    Type1d,
    Type2d,
    Type3d,
    Cube,
}

/// Where a channel of an image view takes its value from.
#[derive(Clone, Copy, Debug, PartialEq, Eq, Structural)]
pub enum ComponentSwizzle {
    Identity,
    Zero,
    One,
    R,
    G,
    B,
    A,
}

/// The part of an image that a view exposes.
#[derive(Clone, Copy, Debug, PartialEq, Eq, Structural)]
pub enum ImageAspect {
    Color,
    Depth,
    Stencil,
}

/// How many samples an image holds for each pixel.
#[derive(Clone, Copy, Debug, PartialEq, Eq, Structural)]
pub enum SampleCount {
    Type1,
    Type2,
    Type4,
    Type8,
}

} // verus!

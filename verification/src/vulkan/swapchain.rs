use crate::error::SetupError;
use crate::vulkan::device::QueueFamilyIndices;
use crate::vulkan::types::{
    ComponentSwizzle, CompositeAlpha, Extent2D, ImageAspect, ImageUsage, ImageViewType,
    SharingMode, SurfaceCapabilities, SurfaceFormat, COLOR_SPACE_SRGB_NONLINEAR,
    FORMAT_B8G8R8_SRGB, PRESENT_MODE_FIFO, PRESENT_MODE_MAILBOX, UNDEFINED_EXTENT,
};
use vstd::prelude::*;

verus! {

/// A snapshot of what one device can present to one surface.
#[derive(Debug, PartialEq, Eq)]
pub struct SwapchainSupportDetails {
    pub capabilities: SurfaceCapabilities,
    pub formats: Vec<SurfaceFormat>,
    pub present_modes: Vec<i32>,
}

/// The payload from which the driver creates the swapchain.
#[derive(Debug, PartialEq, Eq)]
pub struct SwapchainCreateInfo {
    pub min_image_count: u32,
    pub image_format: i32,
    pub image_color_space: i32,
    pub image_extent: Extent2D,
    pub image_array_layers: u32,
    pub image_usage: ImageUsage,
    pub image_sharing_mode: SharingMode,
    /// The families that share the images; empty when one family owns them.
    pub queue_family_indices: Vec<u32>,
    pub pre_transform: u32,
    pub composite_alpha: CompositeAlpha,
    pub present_mode: i32,
    pub clipped: bool,
}

/// A created swapchain with the images the driver made for it.
#[derive(Debug, PartialEq, Eq)]
pub struct SwapchainEntities {
    pub swapchain: u64,
    pub swapchain_images: Vec<u64>,
    pub swapchain_format: i32,
    pub swapchain_extent: Extent2D,
}

/// Which source each of the four channels of a view reads.
#[derive(Clone, Copy, Debug, PartialEq, Eq, Structural)]
pub struct ComponentMapping {
    pub r: ComponentSwizzle,
    pub g: ComponentSwizzle,
    pub b: ComponentSwizzle,
    pub a: ComponentSwizzle,
}

/// The mip levels and array layers that a view covers.
#[derive(Clone, Copy, Debug, PartialEq, Eq, Structural)]
pub struct ImageSubresourceRange {
    pub aspect_mask: ImageAspect,
    pub base_mip_level: u32,
    pub level_count: u32,
    pub base_array_layer: u32,
    pub layer_count: u32,
}

/// The payload from which the driver creates the view of one image.
#[derive(Clone, Copy, Debug, PartialEq, Eq, Structural)]
pub struct ImageViewCreateInfo {
    pub image: u64,
    pub view_type: ImageViewType,
    pub format: i32,
    pub components: ComponentMapping,
    pub subresource_range: ImageSubresourceRange,
}

/// `value` moved into `[low, high]`.
pub open spec fn clamp_to(value: u32, low: u32, high: u32) -> u32 {
    if value < low {
        low
    } else if value > high {
        high
    } else {
        value
    }
}

/// The format the negotiation likes best.
pub open spec fn is_preferred_format(format: SurfaceFormat) -> bool {
    format.format == FORMAT_B8G8R8_SRGB && format.color_space == COLOR_SPACE_SRGB_NONLINEAR
}

/// The preferred format where the surface advertises it, else the first one
/// advertised.
pub open spec fn chosen_surface_format(formats: Seq<SurfaceFormat>) -> SurfaceFormat
    recommends
        formats.len() > 0,
{
    if exists|i: int| 0 <= i < formats.len() && is_preferred_format(#[trigger] formats[i]) {
        SurfaceFormat { format: FORMAT_B8G8R8_SRGB, color_space: COLOR_SPACE_SRGB_NONLINEAR }
    } else {
        formats[0]
    }
}

/// Mailbox where the surface advertises it, else the mode that is always
/// there.
pub open spec fn chosen_present_mode(present_modes: Seq<i32>) -> i32 {
    if present_modes.contains(PRESENT_MODE_MAILBOX) {
        PRESENT_MODE_MAILBOX
    } else {
        PRESENT_MODE_FIFO
    }
}

/// The surface's own extent where it reports one, else the requested extent
/// moved into the surface's bounds, width by width and height by height.
pub open spec fn chosen_extent(capabilities: SurfaceCapabilities, requested: Extent2D) -> Extent2D {
    if capabilities.current_extent.width != UNDEFINED_EXTENT {
        capabilities.current_extent
    } else {
        Extent2D {
            width: clamp_to(
                requested.width,
                capabilities.min_image_extent.width,
                capabilities.max_image_extent.width,
            ),
            height: clamp_to(
                requested.height,
                capabilities.min_image_extent.height,
                capabilities.max_image_extent.height,
            ),
        }
    }
}

/// One image more than the surface needs at least, capped where the surface
/// sets an upper bound.
pub open spec fn chosen_image_count(capabilities: SurfaceCapabilities) -> int {
    let wanted = capabilities.min_image_count + 1;
    if capabilities.max_image_count > 0 && wanted > capabilities.max_image_count {
        capabilities.max_image_count as int
    } else {
        wanted
    }
}

/// Concurrent exactly when drawing and presenting use different families.
pub open spec fn chosen_sharing_mode(indices: QueueFamilyIndices) -> SharingMode {
    if indices.graphics_family_index != indices.present_family_index {
        SharingMode::Concurrent
    } else {
        SharingMode::Exclusive
    }
}

/// The families named to the driver: both when they differ, none otherwise.
pub open spec fn chosen_sharing_families(indices: QueueFamilyIndices) -> Seq<u32>
    recommends
        indices.graphics_family_index != indices.present_family_index ==> indices.complete(),
{
    if indices.graphics_family_index != indices.present_family_index {
        seq![indices.graphics_family_index.unwrap(), indices.present_family_index.unwrap()]
    } else {
        Seq::empty()
    }
}

/// The view of one swapchain image: two-dimensional, colour only, channels
/// unswapped, one mip level and one array layer.
pub open spec fn image_view_for(surface_format: i32, image: u64) -> ImageViewCreateInfo {
    ImageViewCreateInfo {
        image,
        view_type: ImageViewType::Type2d,
        format: surface_format,
        components: ComponentMapping {
            r: ComponentSwizzle::Identity,
            g: ComponentSwizzle::Identity,
            b: ComponentSwizzle::Identity,
            a: ComponentSwizzle::Identity,
        },
        subresource_range: ImageSubresourceRange {
            aspect_mask: ImageAspect::Color,
            base_mip_level: 0,
            level_count: 1,
            base_array_layer: 0,
            layer_count: 1,
        },
    }
}

/// `num_traits::clamp` at `u32`. It returns `min` for an input below `min`,
/// `max` for one above `max`, and the input otherwise; with `min` above `max`
/// it panics in debug builds, so that case is left out.
#[verifier::external_body]
fn clamp(input: u32, min: u32, max: u32) -> (clamped: u32)
    requires
        min <= max,
    ensures
        clamped == clamp_to(input, min, max),
{
    num_traits::clamp(input, min, max)
}

/// Selects the surface format: [`chosen_surface_format`]. There has to be
/// one to select.
pub fn select_surface_format(available_formats: &Vec<SurfaceFormat>) -> (chosen: SurfaceFormat)
    requires
        available_formats.len() > 0,
    ensures
        chosen == chosen_surface_format(available_formats@),
{
    let mut i: usize = 0;
    while i < available_formats.len()
        invariant
            i <= available_formats.len(),
            forall|j: int| 0 <= j < i ==> !is_preferred_format(#[trigger] available_formats@[j]),
        decreases available_formats.len() - i,
    {
        let available_format = available_formats[i];
        if available_format.format == FORMAT_B8G8R8_SRGB && available_format.color_space
            == COLOR_SPACE_SRGB_NONLINEAR {
            assert(is_preferred_format(available_formats@[i as int]));
            return available_format;
        }
        i += 1;
    }
    available_formats[0]
}

/// Selects the present mode: [`chosen_present_mode`].
pub fn select_present_mode(present_modes: &Vec<i32>) -> (chosen: i32)
    ensures
        chosen == chosen_present_mode(present_modes@),
{
    let mut i: usize = 0;
    while i < present_modes.len()
        invariant
            i <= present_modes.len(),
            forall|j: int| 0 <= j < i ==> present_modes@[j] != PRESENT_MODE_MAILBOX,
        decreases present_modes.len() - i,
    {
        if present_modes[i] == PRESENT_MODE_MAILBOX {
            assert(present_modes@[i as int] == PRESENT_MODE_MAILBOX);
            return present_modes[i];
        }
        i += 1;
    }
    PRESENT_MODE_FIFO
}

/// Selects the extent of the swapchain images: [`chosen_extent`]. Where the
/// requested extent has to be clamped, the bounds have to be in order.
pub fn select_swapchain_extent(capabilities: &SurfaceCapabilities, requested: Extent2D) -> (chosen:
    Extent2D)
    requires
        capabilities.current_extent.width == UNDEFINED_EXTENT ==> {
            &&& capabilities.min_image_extent.width <= capabilities.max_image_extent.width
            &&& capabilities.min_image_extent.height <= capabilities.max_image_extent.height
        },
    ensures
        chosen == chosen_extent(*capabilities, requested),
{
    if capabilities.current_extent.width != UNDEFINED_EXTENT {
        capabilities.current_extent
    } else {
        Extent2D {
            width: clamp(
                requested.width,
                capabilities.min_image_extent.width,
                capabilities.max_image_extent.width,
            ),
            height: clamp(
                requested.height,
                capabilities.min_image_extent.height,
                capabilities.max_image_extent.height,
            ),
        }
    }
}

/// Selects the number of swapchain images: [`chosen_image_count`]. Without an
/// upper bound, one more than the minimum has to be a number the driver can
/// take.
pub fn select_image_count(capabilities: &SurfaceCapabilities) -> (count: u32)
    requires
        capabilities.max_image_count == 0 ==> capabilities.min_image_count < u32::MAX,
    ensures
        count == chosen_image_count(*capabilities),
{
    if capabilities.max_image_count > 0 && capabilities.min_image_count
        >= capabilities.max_image_count {
        capabilities.max_image_count
    } else {
        capabilities.min_image_count + 1
    }
}

/// Selects how the swapchain images are shared, and names the families that
/// share them. Families that differ both have to be known.
pub fn select_sharing_mode(indices: &QueueFamilyIndices) -> (chosen: (SharingMode, Vec<u32>))
    requires
        indices.graphics_family_index != indices.present_family_index ==> indices.complete(),
    ensures
        chosen.0 == chosen_sharing_mode(*indices),
        chosen.1@ == chosen_sharing_families(*indices),
        chosen.0 == SharingMode::Concurrent <==> indices.graphics_family_index
            != indices.present_family_index,
        chosen.0 == SharingMode::Exclusive ==> chosen.1@.len() == 0,
{
    match (indices.graphics_family_index, indices.present_family_index) {
        (Some(graphics), Some(present)) => {
            if graphics != present {
                (SharingMode::Concurrent, vec![graphics, present])
            } else {
                (SharingMode::Exclusive, Vec::new())
            }
        },
        _ => (SharingMode::Exclusive, Vec::new()),
    }
}

/// Whether the negotiation can be carried out on these facts: the extent
/// bounds are ordered where the extent has to be clamped, one image more
/// than the minimum can be counted, and both families are known where they
/// differ.
pub open spec fn negotiable(details: &SwapchainSupportDetails, indices: &QueueFamilyIndices) -> bool {
    let capabilities = details.capabilities;
    &&& capabilities.current_extent.width == UNDEFINED_EXTENT ==> {
        &&& capabilities.min_image_extent.width <= capabilities.max_image_extent.width
        &&& capabilities.min_image_extent.height <= capabilities.max_image_extent.height
    }
    &&& capabilities.max_image_count == 0 ==> capabilities.min_image_count < u32::MAX
    &&& indices.graphics_family_index != indices.present_family_index ==> indices.complete()
}

/// Tests [`negotiable`], for callers that cannot prove it.
pub fn can_negotiate(details: &SwapchainSupportDetails, indices: &QueueFamilyIndices) -> (ok: bool)
    ensures
        ok == negotiable(details, indices),
{
    let capabilities = &details.capabilities;
    let extent_ok = capabilities.current_extent.width != UNDEFINED_EXTENT || (
    capabilities.min_image_extent.width <= capabilities.max_image_extent.width
        && capabilities.min_image_extent.height <= capabilities.max_image_extent.height);
    let count_ok = capabilities.max_image_count != 0 || capabilities.min_image_count < u32::MAX;
    let families_ok = match (indices.graphics_family_index, indices.present_family_index) {
        (Some(_), Some(_)) => true,
        (None, None) => true,
        _ => false,
    };
    extent_ok && count_ok && families_ok
}

/// Negotiates the swapchain against what the surface supports.
///
/// Fails when the surface advertises no format, or a format but no present
/// mode. Otherwise every field of the payload is decided by the policy:
/// format, present mode, extent, image count and sharing mode by the
/// `chosen_*` functions, the transform taken over from the surface, and the
/// rest fixed.
pub fn create_swapchain_entities(
    details: &SwapchainSupportDetails,
    indices: &QueueFamilyIndices,
    requested: Extent2D,
) -> (outcome: Result<SwapchainCreateInfo, SetupError>)
    requires
        negotiable(details, indices),
    ensures
        details.formats@.len() == 0 ==> outcome == Err::<SwapchainCreateInfo, SetupError>(
            SetupError::NoSurfaceFormat,
        ),
        details.formats@.len() > 0 && details.present_modes@.len() == 0 ==> outcome == Err::<
            SwapchainCreateInfo,
            SetupError,
        >(SetupError::NoPresentMode),
        details.formats@.len() > 0 && details.present_modes@.len() > 0 ==> outcome.is_ok(),
        outcome matches Ok(info) ==> {
            &&& info.min_image_count == chosen_image_count(details.capabilities)
            &&& info.image_format == chosen_surface_format(details.formats@).format
            &&& info.image_color_space == chosen_surface_format(details.formats@).color_space
            &&& info.image_extent == chosen_extent(details.capabilities, requested)
            &&& info.image_array_layers == 1
            &&& info.image_usage == ImageUsage::ColorAttachment
            &&& info.image_sharing_mode == chosen_sharing_mode(*indices)
            &&& info.queue_family_indices@ == chosen_sharing_families(*indices)
            &&& info.pre_transform == details.capabilities.current_transform
            &&& info.composite_alpha == CompositeAlpha::Opaque
            &&& info.present_mode == chosen_present_mode(details.present_modes@)
            &&& info.clipped
        },
{
    if details.formats.len() == 0 {
        return Err(SetupError::NoSurfaceFormat);
    }
    if details.present_modes.len() == 0 {
        return Err(SetupError::NoPresentMode);
    }
    let surface_format = select_surface_format(&details.formats);
    let present_mode = select_present_mode(&details.present_modes);
    let extent = select_swapchain_extent(&details.capabilities, requested);
    let image_count = select_image_count(&details.capabilities);
    let (image_sharing_mode, queue_family_indices) = select_sharing_mode(indices);

    Ok(
        SwapchainCreateInfo {
            min_image_count: image_count,
            image_format: surface_format.format,
            image_color_space: surface_format.color_space,
            image_extent: extent,
            image_array_layers: 1,
            image_usage: ImageUsage::ColorAttachment,
            image_sharing_mode,
            queue_family_indices,
            pre_transform: details.capabilities.current_transform,
            composite_alpha: CompositeAlpha::Opaque,
            present_mode,
            clipped: true,
        },
    )
}

/// Lays out the view of one swapchain image: [`image_view_for`].
pub fn create_image_view(surface_format: i32, image: u64) -> (info: ImageViewCreateInfo)
    ensures
        info == image_view_for(surface_format, image),
{
    ImageViewCreateInfo {
        image,
        view_type: ImageViewType::Type2d,
        format: surface_format,
        components: ComponentMapping {
            r: ComponentSwizzle::Identity,
            g: ComponentSwizzle::Identity,
            b: ComponentSwizzle::Identity,
            a: ComponentSwizzle::Identity,
        },
        subresource_range: ImageSubresourceRange {
            aspect_mask: ImageAspect::Color,
            base_mip_level: 0,
            level_count: 1,
            base_array_layer: 0,
            layer_count: 1,
        },
    }
}

/// One view payload per image, in the order of the images.
pub fn create_swapchain_image_views(surface_format: i32, images: &Vec<u64>) -> (views: Vec<
    ImageViewCreateInfo,
>)
    ensures
        views@ == images@.map_values(|image: u64| image_view_for(surface_format, image)),
{
    let mut image_views: Vec<ImageViewCreateInfo> = Vec::new();
    let mut i: usize = 0;
    while i < images.len()
        invariant
            i <= images.len(),
            image_views@.len() == i,
            forall|j: int|
                0 <= j < i ==> #[trigger] image_views@[j] == image_view_for(
                    surface_format,
                    images@[j],
                ),
        decreases images.len() - i,
    {
        image_views.push(create_image_view(surface_format, images[i]));
        i += 1;
    }
    assert(image_views@ =~= images@.map_values(
        |image: u64| image_view_for(surface_format, image),
    ));
    image_views
}

/// Takes over the swapchain the driver made from `info`, with its images,
/// and lays out the view of each image.
pub fn create_swapchain(info: &SwapchainCreateInfo, swapchain: u64, images: Vec<u64>) -> (created: (
    SwapchainEntities,
    Vec<ImageViewCreateInfo>,
))
    ensures
        created.0.swapchain == swapchain,
        created.0.swapchain_images@ == images@,
        created.0.swapchain_format == info.image_format,
        created.0.swapchain_extent == info.image_extent,
        created.1@ == images@.map_values(|image: u64| image_view_for(info.image_format, image)),
{
    let swapchain_image_views = create_swapchain_image_views(info.image_format, &images);
    let swapchain_entities = SwapchainEntities {
        swapchain,
        swapchain_images: images,
        swapchain_format: info.image_format,
        swapchain_extent: info.image_extent,
    };
    (swapchain_entities, swapchain_image_views)
}

/// Where the surface sets an upper bound on its images that is not below its
/// lower bound, the chosen count lies between the two; where it sets none,
/// the chosen count is one more than the lower bound.
pub proof fn image_count_within_bounds(capabilities: SurfaceCapabilities)
    requires
        capabilities.max_image_count > 0 ==> capabilities.min_image_count
            <= capabilities.max_image_count,
    ensures
        capabilities.max_image_count > 0 ==> capabilities.min_image_count <= chosen_image_count(
            capabilities,
        ) <= capabilities.max_image_count,
        capabilities.max_image_count == 0 ==> chosen_image_count(capabilities)
            == capabilities.min_image_count + 1,
{
}

/// A surface that reports an extent gets exactly that extent. One that
/// reports none gets the requested extent moved into its bounds: each
/// component lies within the bounds, and is the requested one wherever that
/// already lies within them.
pub proof fn extent_follows_surface_or_request(
    capabilities: SurfaceCapabilities,
    requested: Extent2D,
)
    requires
        capabilities.min_image_extent.width <= capabilities.max_image_extent.width,
        capabilities.min_image_extent.height <= capabilities.max_image_extent.height,
    ensures
        capabilities.current_extent.width != UNDEFINED_EXTENT ==> chosen_extent(
            capabilities,
            requested,
        ) == capabilities.current_extent,
        capabilities.current_extent.width == UNDEFINED_EXTENT ==> {
            let chosen = chosen_extent(capabilities, requested);
            &&& capabilities.min_image_extent.width <= chosen.width
                <= capabilities.max_image_extent.width
            &&& capabilities.min_image_extent.height <= chosen.height
                <= capabilities.max_image_extent.height
            &&& capabilities.min_image_extent.width <= requested.width
                <= capabilities.max_image_extent.width ==> chosen.width == requested.width
            &&& capabilities.min_image_extent.height <= requested.height
                <= capabilities.max_image_extent.height ==> chosen.height == requested.height
            &&& requested.width < capabilities.min_image_extent.width ==> chosen.width
                == capabilities.min_image_extent.width
            &&& requested.width > capabilities.max_image_extent.width ==> chosen.width
                == capabilities.max_image_extent.width
            &&& requested.height < capabilities.min_image_extent.height ==> chosen.height
                == capabilities.min_image_extent.height
            &&& requested.height > capabilities.max_image_extent.height ==> chosen.height
                == capabilities.max_image_extent.height
        },
{
}

/// The images are shared concurrently exactly when drawing and presenting
/// use different families, and then both families are named, drawing first.
/// Otherwise one family owns them and none is named.
pub proof fn sharing_follows_families(indices: QueueFamilyIndices)
    requires
        indices.graphics_family_index != indices.present_family_index ==> indices.complete(),
    ensures
        chosen_sharing_mode(indices) == SharingMode::Concurrent <==> indices.graphics_family_index
            != indices.present_family_index,
        chosen_sharing_mode(indices) == SharingMode::Exclusive <==> indices.graphics_family_index
            == indices.present_family_index,
        chosen_sharing_mode(indices) == SharingMode::Exclusive ==> chosen_sharing_families(
            indices,
        ).len() == 0,
        chosen_sharing_mode(indices) == SharingMode::Concurrent ==> chosen_sharing_families(indices)
            == seq![
            indices.graphics_family_index.unwrap(),
            indices.present_family_index.unwrap(),
        ],
{
}

} // verus!

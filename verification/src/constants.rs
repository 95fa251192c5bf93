use crate::util::debug::ValidationInfo;
use crate::vulkan::instance::ApplicationInfo;
use crate::vulkan::names::texts;
use vstd::prelude::*;
use vstd::string::StringExecFns;

verus! {

/// The name under which the application registers with the driver.
pub const APPLICATION_NAME: &'static str = "Piston demo";

/// The name of the engine, as told to the driver.
pub const ENGINE_NAME: &'static str = "Piston";

/// The title of the window.
pub const WINDOW_TITLE: &'static str = APPLICATION_NAME;

/// The width asked for where the surface leaves the extent open.
pub const WINDOW_WIDTH: u32 = 1024;

/// The height asked for where the surface leaves the extent open.
pub const WINDOW_HEIGHT: u32 = 768;

/// A version number as the driver packs it.
pub open spec fn packed_version(variant: u32, major: u32, minor: u32, patch: u32) -> u32 {
    (variant << 29) | (major << 22) | (minor << 12) | patch
}

/// `ash::vk::make_api_version`: the four parts of a version shifted into
/// one number, the variant highest.
pub assume_specification[ ash::vk::make_api_version ](
    variant: u32,
    major: u32,
    minor: u32,
    patch: u32,
) -> (version: u32)
    ensures
        version == packed_version(variant, major, minor, patch),
;

/// Version 0.1.0 of the application.
pub fn application_version() -> (version: u32)
    ensures
        version == packed_version(0, 0, 1, 0),
        version == 4096,
{
    assert(((0u32 << 29) | (0u32 << 22) | (1u32 << 12) | 0u32) == 4096u32) by (bit_vector);
    ash::vk::make_api_version(0, 0, 1, 0)
}

/// Version 1.2 of the graphics interface.
pub fn vulkan_api_version() -> (version: u32)
    ensures
        version == packed_version(0, 1, 2, 0),
        version == 4202496,
{
    assert(((0u32 << 29) | (1u32 << 22) | (2u32 << 12) | 0u32) == 4202496u32) by (bit_vector);
    ash::vk::make_api_version(0, 1, 2, 0)
}

/// The device extensions the application cannot do without.
pub fn required_extensions() -> (names: Vec<String>)
    ensures
        texts(names@) == seq!["VK_KHR_swapchain"@],
{
    let names = vec![String::from_str("VK_KHR_swapchain")];
    assert(texts(names@) =~= seq!["VK_KHR_swapchain"@]);
    names
}

/// Validation is on, with the standard layer.
pub fn validation() -> (info: ValidationInfo)
    ensures
        info.is_enabled,
        texts(info.required_validation_layers@) == seq!["VK_LAYER_KHRONOS_validation"@],
{
    let layers = vec![String::from_str("VK_LAYER_KHRONOS_validation")];
    assert(texts(layers@) =~= seq!["VK_LAYER_KHRONOS_validation"@]);
    ValidationInfo { is_enabled: true, required_validation_layers: layers }
}

/// What the application tells the driver about itself.
pub fn application_info() -> (info: ApplicationInfo)
    ensures
        info.application_name@ == APPLICATION_NAME@,
        info.application_version == packed_version(0, 0, 1, 0),
        info.engine_name@ == ENGINE_NAME@,
        info.api_version == packed_version(0, 1, 2, 0),
{
    ApplicationInfo {
        application_name: String::from_str(APPLICATION_NAME),
        application_version: application_version(),
        engine_name: String::from_str(ENGINE_NAME),
        api_version: vulkan_api_version(),
    }
}

} // verus!

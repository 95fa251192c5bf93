use crate::error::SetupError;
use crate::util::debug::{
    create_debug_info, debug_info, DebugMessengerCreateInfo, ValidationInfo,
};
use crate::vulkan::names::{all_present, clone_names, contains_name, has_all_names, has_name, texts};
use vstd::prelude::*;

verus! {

/// What the application tells the driver about itself. Handed through as it
/// is.
#[derive(Debug, PartialEq, Eq)]
pub struct ApplicationInfo {
    pub application_name: String,
    pub application_version: u32,
    pub engine_name: String,
    pub api_version: u32,
}

/// The payload from which the driver creates the instance.
#[derive(Debug, PartialEq, Eq)]
pub struct InstanceCreateInfo {
    pub application_info: ApplicationInfo,
    pub enabled_layers: Vec<String>,
    pub enabled_extensions: Vec<String>,
    /// Set where the portability enumeration extension is enabled, so that
    /// devices reached through a portability layer are enumerated too.
    pub enumerate_portability: bool,
    /// Chained in to observe the creation of the instance itself.
    pub debug_messenger: Option<DebugMessengerCreateInfo>,
}

/// The platform's extensions, followed by the debug messaging extension
/// where validation is enabled and the platform's list does not name it.
pub open spec fn instance_extensions_for(platform: Seq<String>, validation_enabled: bool) -> Seq<
    Seq<char>,
> {
    if validation_enabled && !contains_name(platform, "VK_EXT_debug_utils"@) {
        texts(platform).push("VK_EXT_debug_utils"@)
    } else {
        texts(platform)
    }
}

/// The required layers where validation is enabled, none otherwise.
pub open spec fn instance_layers_for(validation_info: &ValidationInfo) -> Seq<Seq<char>> {
    if validation_info.is_enabled {
        texts(validation_info.required_validation_layers@)
    } else {
        Seq::empty()
    }
}

/// `ash::extensions::ext::DebugUtils::name`: the name under which the
/// driver knows the debug messaging extension.
#[verifier::external_body]
fn debug_utils_extension_name() -> (name: String)
    ensures
        name@ == "VK_EXT_debug_utils"@,
{
    ash::extensions::ext::DebugUtils::name().to_string_lossy().into_owned()
}

/// `ash::vk::KhrPortabilityEnumerationFn::name`: the name under which the
/// driver knows the portability enumeration extension.
#[verifier::external_body]
fn portability_enumeration_extension_name() -> (name: String)
    ensures
        name@ == "VK_KHR_portability_enumeration"@,
{
    ash::vk::KhrPortabilityEnumerationFn::name().to_string_lossy().into_owned()
}

/// Whether every required layer is among the installed ones.
pub fn is_validation_layer_supported(
    available_layers: &Vec<String>,
    validation_info: &ValidationInfo,
) -> (supported: bool)
    ensures
        supported == all_present(available_layers@, validation_info.required_validation_layers@),
{
    has_all_names(available_layers, &validation_info.required_validation_layers)
}

/// Lays out the instance.
///
/// Fails, before anything else is looked at, when validation is enabled and
/// a required layer is not installed. Otherwise the payload carries the
/// application's description unchanged, the platform's extensions, and, with
/// validation enabled, the required layers, the debug messaging extension and
/// the messenger that watches the instance come up.
pub fn create_instance(
    available_layers: &Vec<String>,
    application_info: ApplicationInfo,
    platform_extensions: &Vec<String>,
    validation_info: &ValidationInfo,
) -> (outcome: Result<InstanceCreateInfo, SetupError>)
    ensures
        validation_info.is_enabled && !all_present(
            available_layers@,
            validation_info.required_validation_layers@,
        ) <==> outcome == Err::<InstanceCreateInfo, SetupError>(SetupError::MissingValidationLayer),
        outcome.is_err() ==> outcome == Err::<InstanceCreateInfo, SetupError>(
            SetupError::MissingValidationLayer,
        ),
        outcome matches Ok(info) ==> {
            &&& info.application_info == application_info
            &&& texts(info.enabled_layers@) == instance_layers_for(validation_info)
            &&& texts(info.enabled_extensions@) == instance_extensions_for(
                platform_extensions@,
                validation_info.is_enabled,
            )
            &&& info.enumerate_portability == contains_name(
                platform_extensions@,
                "VK_KHR_portability_enumeration"@,
            )
            &&& info.debug_messenger == (if validation_info.is_enabled {
                Some(debug_info())
            } else {
                None
            })
        },
{
    if validation_info.is_enabled && !is_validation_layer_supported(
        available_layers,
        validation_info,
    ) {
        return Err(SetupError::MissingValidationLayer);
    }
    let mut enabled_extensions = clone_names(platform_extensions);
    let debug_utils = debug_utils_extension_name();
    if validation_info.is_enabled && !has_name(platform_extensions, &debug_utils) {
        let ghost before = enabled_extensions@;
        enabled_extensions.push(debug_utils);
        assert(texts(enabled_extensions@) =~= texts(before).push("VK_EXT_debug_utils"@));
    }
    let enabled_layers = if validation_info.is_enabled {
        clone_names(&validation_info.required_validation_layers)
    } else {
        Vec::new()
    };
    assert(texts(enabled_layers@) =~= instance_layers_for(validation_info));
    let enumerate_portability = has_name(
        platform_extensions,
        &portability_enumeration_extension_name(),
    );
    let debug_messenger = if validation_info.is_enabled {
        Some(create_debug_info())
    } else {
        None
    };

    Ok(
        InstanceCreateInfo {
            application_info,
            enabled_layers,
            enabled_extensions,
            enumerate_portability,
            debug_messenger,
        },
    )
}

} // verus!

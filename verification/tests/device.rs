use piston::error::SetupError;
use piston::vulkan::device::{
    check_extension_support, check_queue_families, check_swapchain_support, create_logical_device,
    device_queue_requests, device_queue_slots, find_queue_family, is_suitable_physical_device,
    select_physical_device, DeviceQueueCreateInfo, PhysicalDeviceFacts, QueueFamilyIndices,
    QueueFamilyProperties, QueueSlot,
};
use piston::vulkan::swapchain::{
    create_swapchain_entities, select_sharing_mode, SwapchainSupportDetails,
};
use piston::vulkan::types::{Extent2D, SharingMode, SurfaceCapabilities, SurfaceFormat};

const GRAPHICS: u32 = 1;
const COMPUTE: u32 = 2;
const TRANSFER: u32 = 4;

fn family(queue_count: u32, queue_flags: u32, present_support: bool) -> QueueFamilyProperties {
    QueueFamilyProperties { queue_count, queue_flags, present_support }
}

fn names(list: &[&str]) -> Vec<String> {
    list.iter().map(|name| name.to_string()).collect()
}

fn support(formats: usize, present_modes: usize) -> SwapchainSupportDetails {
    SwapchainSupportDetails {
        capabilities: SurfaceCapabilities {
            min_image_count: 1,
            max_image_count: 0,
            current_extent: Extent2D { width: u32::MAX, height: u32::MAX },
            min_image_extent: Extent2D { width: 1, height: 1 },
            max_image_extent: Extent2D { width: 4096, height: 4096 },
            current_transform: 1,
        },
        formats: vec![SurfaceFormat { format: 44, color_space: 0 }; formats],
        present_modes: vec![2; present_modes],
    }
}

fn device(families: Vec<QueueFamilyProperties>, extensions: &[&str]) -> PhysicalDeviceFacts {
    PhysicalDeviceFacts {
        queue_families: families,
        extensions: names(extensions),
        swapchain_support: support(1, 1),
    }
}

fn indices(graphics: Option<u32>, present: Option<u32>) -> QueueFamilyIndices {
    QueueFamilyIndices { graphics_family_index: graphics, present_family_index: present }
}

#[test]
fn graphics_bit_is_the_one_the_driver_bindings_name() {
    assert_eq!(GRAPHICS, ash::vk::QueueFlags::GRAPHICS.as_raw());
    assert_eq!(COMPUTE, ash::vk::QueueFlags::COMPUTE.as_raw());
    assert_eq!(TRANSFER, ash::vk::QueueFlags::TRANSFER.as_raw());
}

#[test]
fn new_indices_are_open() {
    let fresh = QueueFamilyIndices::new();
    assert_eq!(fresh.graphics_family_index, None);
    assert_eq!(fresh.present_family_index, None);
    assert!(!fresh.is_complete());
}

#[test]
fn indices_are_complete_with_both_families() {
    assert!(indices(Some(0), Some(0)).is_complete());
    assert!(indices(Some(0), Some(3)).is_complete());
    assert!(!indices(Some(0), None).is_complete());
    assert!(!indices(None, Some(0)).is_complete());
}

#[test]
fn one_family_can_serve_both() {
    let families = vec![family(1, GRAPHICS | COMPUTE, true)];
    assert_eq!(find_queue_family(&families), indices(Some(0), Some(0)));
    assert!(check_queue_families(&families));
}

#[test]
fn first_family_of_each_kind_is_recorded() {
    let families = vec![
        family(1, COMPUTE, false),
        family(1, GRAPHICS, false),
        family(1, GRAPHICS | TRANSFER, true),
        family(1, GRAPHICS, true),
    ];
    assert_eq!(find_queue_family(&families), indices(Some(1), Some(2)));
}

#[test]
fn present_may_come_before_graphics() {
    let families = vec![family(2, TRANSFER, true), family(1, COMPUTE, false), family(4, 7, true)];
    assert_eq!(find_queue_family(&families), indices(Some(2), Some(0)));
}

#[test]
fn family_without_queues_counts_for_nothing() {
    let families = vec![family(0, GRAPHICS, true), family(1, GRAPHICS, true)];
    assert_eq!(find_queue_family(&families), indices(Some(1), Some(1)));
    assert!(!check_queue_families(&vec![family(0, GRAPHICS, true)]));
}

#[test]
fn other_capabilities_are_not_graphics() {
    let families = vec![family(1, COMPUTE | TRANSFER, true), family(1, 8, true)];
    assert_eq!(find_queue_family(&families), indices(None, Some(0)));
    assert!(!check_queue_families(&families));
}

#[test]
fn missing_families_stay_open() {
    assert_eq!(find_queue_family(&vec![]), indices(None, None));
    assert_eq!(find_queue_family(&vec![family(1, GRAPHICS, false)]), indices(Some(0), None));
    assert!(!check_queue_families(&vec![]));
    assert!(!check_queue_families(&vec![family(1, GRAPHICS, false)]));
    assert!(check_queue_families(&vec![family(1, GRAPHICS, false), family(1, 0, true)]));
}

#[test]
fn every_required_extension_must_be_there() {
    let available = names(&["VK_KHR_maintenance1", "VK_KHR_swapchain", "VK_EXT_debug_marker"]);
    assert!(check_extension_support(&available, &names(&["VK_KHR_swapchain"])));
    assert!(check_extension_support(&available, &names(&["VK_EXT_debug_marker", "VK_KHR_swapchain"])));
    assert!(check_extension_support(&available, &names(&[])));
    assert!(!check_extension_support(&available, &names(&["VK_KHR_swapchain", "VK_KHR_multiview"])));
    assert!(!check_extension_support(&names(&[]), &names(&["VK_KHR_swapchain"])));
    assert!(!check_extension_support(&available, &names(&["VK_KHR_swapchai"])));
}

#[test]
fn swapchain_needs_a_format_and_a_present_mode() {
    assert!(check_swapchain_support(&support(1, 1)));
    assert!(check_swapchain_support(&support(3, 2)));
    assert!(!check_swapchain_support(&support(0, 1)));
    assert!(!check_swapchain_support(&support(1, 0)));
    assert!(!check_swapchain_support(&support(0, 0)));
}

#[test]
fn suitable_means_all_three() {
    let required = names(&["VK_KHR_swapchain"]);
    let good = device(vec![family(1, GRAPHICS, true)], &["VK_KHR_swapchain"]);
    assert!(is_suitable_physical_device(&good, &required));

    let no_present = device(vec![family(1, GRAPHICS, false)], &["VK_KHR_swapchain"]);
    assert!(!is_suitable_physical_device(&no_present, &required));

    let no_extension = device(vec![family(1, GRAPHICS, true)], &["VK_KHR_multiview"]);
    assert!(!is_suitable_physical_device(&no_extension, &required));

    let mut no_format = device(vec![family(1, GRAPHICS, true)], &["VK_KHR_swapchain"]);
    no_format.swapchain_support = support(0, 1);
    assert!(!is_suitable_physical_device(&no_format, &required));
}

#[test]
fn first_suitable_device_is_selected() {
    let required = names(&["VK_KHR_swapchain"]);
    let unsuitable = device(vec![family(1, COMPUTE, true)], &["VK_KHR_swapchain"]);
    let good = device(vec![family(1, GRAPHICS, true)], &["VK_KHR_swapchain"]);
    let better = device(vec![family(16, 15, true)], &["VK_KHR_swapchain", "VK_KHR_multiview"]);
    assert_eq!(select_physical_device(&vec![unsuitable, good, better], &required), Ok(1));
}

#[test]
fn no_suitable_device_is_an_error() {
    let required = names(&["VK_KHR_swapchain"]);
    assert_eq!(select_physical_device(&vec![], &required), Err(SetupError::NoSuitableDevice));
    let unsuitable = device(vec![family(1, COMPUTE, true)], &["VK_KHR_swapchain"]);
    assert_eq!(
        select_physical_device(&vec![unsuitable], &required),
        Err(SetupError::NoSuitableDevice)
    );
}

#[test]
fn device_without_a_required_extension_is_never_selected() {
    let required = names(&["VK_KHR_swapchain", "VK_KHR_multiview"]);
    let complete_families = vec![family(4, 15, true), family(2, GRAPHICS, true)];
    let lacking = device(complete_families, &["VK_KHR_swapchain"]);
    assert_eq!(select_physical_device(&vec![lacking], &required), Err(SetupError::NoSuitableDevice));

    let lacking = device(vec![family(4, 15, true)], &["VK_KHR_multiview"]);
    let modest = device(vec![family(1, GRAPHICS, true)], &["VK_KHR_multiview", "VK_KHR_swapchain"]);
    assert_eq!(select_physical_device(&vec![lacking, modest], &required), Ok(1));
}

#[test]
fn selection_depends_on_order_and_facts_alone() {
    let required = names(&["VK_KHR_swapchain"]);
    let make = || {
        vec![
            device(vec![family(1, COMPUTE, true)], &["VK_KHR_swapchain"]),
            device(vec![family(1, GRAPHICS, true)], &["VK_KHR_swapchain"]),
            device(vec![family(1, GRAPHICS, true)], &["VK_KHR_swapchain"]),
        ]
    };
    let first = select_physical_device(&make(), &required);
    assert_eq!(first, Ok(1));
    assert_eq!(select_physical_device(&make(), &required), first);

    let mut longer = make();
    longer.push(device(vec![family(1, GRAPHICS, true)], &["VK_KHR_swapchain"]));
    assert_eq!(select_physical_device(&longer, &required), first);

    let mut swapped = make();
    swapped.swap(0, 1);
    assert_eq!(select_physical_device(&swapped, &required), Ok(0));
}

#[test]
fn one_queue_request_for_each_distinct_family() {
    assert_eq!(
        device_queue_requests(&indices(Some(2), Some(2))),
        vec![DeviceQueueCreateInfo { queue_family_index: 2, queue_count: 1 }]
    );
    assert_eq!(
        device_queue_requests(&indices(Some(0), Some(1))),
        vec![
            DeviceQueueCreateInfo { queue_family_index: 0, queue_count: 1 },
            DeviceQueueCreateInfo { queue_family_index: 1, queue_count: 1 },
        ]
    );
}

#[test]
fn queues_are_the_first_of_their_families() {
    assert_eq!(
        device_queue_slots(&indices(Some(3), Some(1))),
        (
            QueueSlot { queue_family_index: 3, queue_index: 0 },
            QueueSlot { queue_family_index: 1, queue_index: 0 },
        )
    );
    let (graphics, present) = device_queue_slots(&indices(Some(2), Some(2)));
    assert_eq!(graphics, present);
}

#[test]
fn logical_device_enables_the_required_extensions() {
    let families = vec![family(1, GRAPHICS, true)];
    let (info, resolved) = create_logical_device(&families, &names(&["VK_KHR_swapchain"]));
    assert_eq!(resolved, indices(Some(0), Some(0)));
    assert_eq!(info.queue_create_infos.len(), 1);
    assert_eq!(info.enabled_extensions, names(&["VK_KHR_swapchain"]));
    assert!(!info.optional_features_enabled);
}

#[test]
fn logical_device_always_has_the_swapchain_extension() {
    let families = vec![family(1, GRAPHICS, false), family(1, COMPUTE, true)];
    let (info, resolved) = create_logical_device(&families, &names(&["VK_KHR_multiview"]));
    assert_eq!(resolved, indices(Some(0), Some(1)));
    assert_eq!(info.queue_create_infos.len(), 2);
    assert_eq!(info.enabled_extensions, names(&["VK_KHR_swapchain", "VK_KHR_multiview"]));
    assert_eq!(
        info.enabled_extensions[0].as_bytes(),
        ash::extensions::khr::Swapchain::name().to_bytes()
    );

    let (info, _) = create_logical_device(&families, &names(&[]));
    assert_eq!(info.enabled_extensions, names(&["VK_KHR_swapchain"]));
}

#[test]
fn split_families_end_to_end() {
    let families = vec![family(1, GRAPHICS, false), family(1, 0, true)];
    let facts = PhysicalDeviceFacts {
        queue_families: families,
        extensions: names(&["VK_KHR_swapchain"]),
        swapchain_support: support(1, 1),
    };
    let required = names(&["VK_KHR_swapchain"]);
    let devices = vec![facts];
    assert_eq!(select_physical_device(&devices, &required), Ok(0));
    let (_, resolved) = create_logical_device(&devices[0].queue_families, &required);
    assert_eq!(select_sharing_mode(&resolved), (SharingMode::Concurrent, vec![0, 1]));
    let info = create_swapchain_entities(
        &devices[0].swapchain_support,
        &resolved,
        Extent2D { width: 800, height: 600 },
    )
    .unwrap();
    assert_eq!(info.image_sharing_mode, SharingMode::Concurrent);
    assert_eq!(info.queue_family_indices, vec![0, 1]);
}

#[test]
fn single_device_end_to_end() {
    let required = names(&["swapchain"]);
    let devices = vec![PhysicalDeviceFacts {
        queue_families: vec![family(1, GRAPHICS, true)],
        extensions: names(&["swapchain"]),
        swapchain_support: support(1, 1),
    }];
    assert_eq!(select_physical_device(&devices, &required), Ok(0));
    let resolved = find_queue_family(&devices[0].queue_families);
    assert_eq!(resolved, indices(Some(0), Some(0)));
    let info = create_swapchain_entities(
        &devices[0].swapchain_support,
        &resolved,
        Extent2D { width: 800, height: 600 },
    )
    .unwrap();
    assert_eq!(info.image_sharing_mode, SharingMode::Exclusive);
    assert!(info.queue_family_indices.is_empty());
    assert_eq!((info.image_format, info.image_color_space), (44, 0));
    assert_eq!(info.present_mode, 2);
    assert_eq!(info.image_extent, Extent2D { width: 800, height: 600 });
    assert_eq!(info.min_image_count, 2);
}

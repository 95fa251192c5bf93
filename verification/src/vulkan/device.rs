use crate::error::SetupError;
use crate::vulkan::names::{all_present, contains_name, has_all_names, has_name, texts};
use crate::vulkan::swapchain::SwapchainSupportDetails;
use vstd::prelude::*;

verus! {

/// The queue families a device offers for drawing and for presenting.
#[derive(Clone, Copy, Debug, PartialEq, Eq, Structural)]
pub struct QueueFamilyIndices {
    pub graphics_family_index: Option<u32>,
    pub present_family_index: Option<u32>,
}

/// One queue family of a device, with the answer to the question whether it
/// can present to the surface at hand.
#[derive(Clone, Copy, Debug, PartialEq, Eq, Structural)]
pub struct QueueFamilyProperties {
    pub queue_count: u32,
    /// Raw capability bits, as the driver reports them.
    pub queue_flags: u32,
    pub present_support: bool,
}

/// What was probed of one enumerated device against one surface.
#[derive(Debug, PartialEq, Eq)]
pub struct PhysicalDeviceFacts {
    pub queue_families: Vec<QueueFamilyProperties>,
    pub extensions: Vec<String>,
    pub swapchain_support: SwapchainSupportDetails,
}

/// A request for queues of one family. Every queue asked for gets the
/// highest priority.
#[derive(Clone, Copy, Debug, PartialEq, Eq, Structural)]
pub struct DeviceQueueCreateInfo {
    pub queue_family_index: u32,
    pub queue_count: u32,
}

/// A queue of a created device: its family, and its place within the family.
#[derive(Clone, Copy, Debug, PartialEq, Eq, Structural)]
pub struct QueueSlot {
    pub queue_family_index: u32,
    pub queue_index: u32,
}

/// The payload from which the driver creates the logical device.
#[derive(Debug, PartialEq, Eq)]
pub struct DeviceCreateInfo {
    pub queue_create_infos: Vec<DeviceQueueCreateInfo>,
    pub enabled_extensions: Vec<String>,
    /// No feature beyond the defaults is switched on.
    pub optional_features_enabled: bool,
}

impl QueueFamilyIndices {
    /// Both families are known. They may be one and the same.
    pub open spec fn complete(&self) -> bool {
        self.graphics_family_index.is_some() && self.present_family_index.is_some()
    }

    /// Indices with neither family resolved.
    pub fn new() -> (indices: QueueFamilyIndices)
        ensures
            indices.graphics_family_index.is_none(),
            indices.present_family_index.is_none(),
    {
        QueueFamilyIndices { graphics_family_index: None, present_family_index: None }
    }

    /// Whether both families are resolved.
    pub fn is_complete(&self) -> (complete: bool)
        ensures
            complete == self.complete(),
    {
        self.graphics_family_index.is_some() && self.present_family_index.is_some()
    }
}

/// The family has a queue, and its capability bits include drawing.
pub open spec fn offers_graphics(family: QueueFamilyProperties) -> bool {
    family.queue_count > 0 && family.queue_flags & 1 == 1
}

/// The family has a queue and can present to the surface.
pub open spec fn offers_present(family: QueueFamilyProperties) -> bool {
    family.queue_count > 0 && family.present_support
}

/// `index` is the first family that draws.
pub open spec fn is_first_graphics(families: Seq<QueueFamilyProperties>, index: int) -> bool {
    &&& 0 <= index < families.len()
    &&& offers_graphics(families[index])
    &&& forall|j: int| 0 <= j < index ==> !offers_graphics(#[trigger] families[j])
}

/// `index` is the first family that presents.
pub open spec fn is_first_present(families: Seq<QueueFamilyProperties>, index: int) -> bool {
    &&& 0 <= index < families.len()
    &&& offers_present(families[index])
    &&& forall|j: int| 0 <= j < index ==> !offers_present(#[trigger] families[j])
}

/// `indices` name the first family that draws and the first that presents,
/// each left open where no family does.
pub open spec fn resolves(families: Seq<QueueFamilyProperties>, indices: QueueFamilyIndices) -> bool {
    &&& match indices.graphics_family_index {
        Some(graphics) => is_first_graphics(families, graphics as int),
        None => forall|j: int| 0 <= j < families.len() ==> !offers_graphics(#[trigger] families[j]),
    }
    &&& match indices.present_family_index {
        Some(present) => is_first_present(families, present as int),
        None => forall|j: int| 0 <= j < families.len() ==> !offers_present(#[trigger] families[j]),
    }
}

/// Some family draws and some family presents.
pub open spec fn queue_families_complete(families: Seq<QueueFamilyProperties>) -> bool {
    &&& exists|i: int| 0 <= i < families.len() && offers_graphics(#[trigger] families[i])
    &&& exists|i: int| 0 <= i < families.len() && offers_present(#[trigger] families[i])
}

/// The surface advertises at least one format and one present mode.
pub open spec fn swapchain_adequate(details: &SwapchainSupportDetails) -> bool {
    details.formats@.len() > 0 && details.present_modes@.len() > 0
}

/// All three predicates hold of the device: its queue families are
/// complete, it has every required extension, and the surface can be
/// presented to.
pub open spec fn suitable(device: &PhysicalDeviceFacts, required: Seq<String>) -> bool {
    &&& queue_families_complete(device.queue_families@)
    &&& all_present(device.extensions@, required)
    &&& swapchain_adequate(&device.swapchain_support)
}

/// `index` is the first suitable device in enumeration order.
pub open spec fn is_first_suitable(
    devices: Seq<PhysicalDeviceFacts>,
    required: Seq<String>,
    index: int,
) -> bool {
    &&& 0 <= index < devices.len()
    &&& suitable(&devices[index], required)
    &&& forall|j: int| 0 <= j < index ==> !suitable(&#[trigger] devices[j], required)
}

/// One request of one queue per distinct family.
pub open spec fn queue_requests_for(indices: QueueFamilyIndices) -> Seq<DeviceQueueCreateInfo>
    recommends
        indices.complete(),
{
    let graphics = indices.graphics_family_index.unwrap();
    let present = indices.present_family_index.unwrap();
    if graphics == present {
        seq![DeviceQueueCreateInfo { queue_family_index: graphics, queue_count: 1 }]
    } else {
        seq![
            DeviceQueueCreateInfo { queue_family_index: graphics, queue_count: 1 },
            DeviceQueueCreateInfo { queue_family_index: present, queue_count: 1 },
        ]
    }
}

/// The first queue of the family at `family_index`.
pub open spec fn first_queue_of(family_index: u32) -> QueueSlot {
    QueueSlot { queue_family_index: family_index, queue_index: 0 }
}

/// The required extensions, with the swapchain extension put in front where
/// they do not name it.
pub open spec fn device_extensions_for(required: Seq<String>) -> Seq<Seq<char>> {
    if contains_name(required, "VK_KHR_swapchain"@) {
        texts(required)
    } else {
        seq!["VK_KHR_swapchain"@] + texts(required)
    }
}

/// `ash::vk::QueueFlags::contains` with `QueueFlags::GRAPHICS` as the set
/// looked for: whether the lowest capability bit is set in `queue_flags`.
#[verifier::external_body]
fn supports_graphics(queue_flags: u32) -> (supported: bool)
    ensures
        supported == (queue_flags & 1 == 1),
{
    ash::vk::QueueFlags::from_raw(queue_flags).contains(ash::vk::QueueFlags::GRAPHICS)
}

/// `ash::extensions::khr::Swapchain::name`: the name under which the driver
/// knows the swapchain extension.
#[verifier::external_body]
fn swapchain_extension_name() -> (name: String)
    ensures
        name@ == "VK_KHR_swapchain"@,
{
    ash::extensions::khr::Swapchain::name().to_string_lossy().into_owned()
}

/// Scans the families in index order for the first that draws and the first
/// that presents. A family without queues counts for neither.
pub fn find_queue_family(queue_families: &Vec<QueueFamilyProperties>) -> (indices:
    QueueFamilyIndices)
    requires
        queue_families.len() <= u32::MAX,
    ensures
        resolves(queue_families@, indices),
        indices.complete() == queue_families_complete(queue_families@),
{
    let mut queue_family_indices = QueueFamilyIndices::new();
    let mut index: u32 = 0;
    while (index as usize) < queue_families.len()
        invariant
            index <= queue_families.len() <= u32::MAX,
            match queue_family_indices.graphics_family_index {
                Some(graphics) => is_first_graphics(queue_families@, graphics as int),
                None => forall|j: int|
                    0 <= j < index ==> !offers_graphics(#[trigger] queue_families@[j]),
            },
            match queue_family_indices.present_family_index {
                Some(present) => is_first_present(queue_families@, present as int),
                None => forall|j: int|
                    0 <= j < index ==> !offers_present(#[trigger] queue_families@[j]),
            },
        decreases queue_families.len() - index,
    {
        let queue_family = queue_families[index as usize];
        if queue_family.queue_count > 0 {
            if queue_family_indices.graphics_family_index.is_none() && supports_graphics(
                queue_family.queue_flags,
            ) {
                queue_family_indices.graphics_family_index = Some(index);
            }
            if queue_family_indices.present_family_index.is_none()
                && queue_family.present_support {
                queue_family_indices.present_family_index = Some(index);
            }
        }
        index += 1;
    }
    queue_family_indices
}

/// Whether some family draws and some family presents to the surface.
pub fn check_queue_families(queue_families: &Vec<QueueFamilyProperties>) -> (complete: bool)
    ensures
        complete == queue_families_complete(queue_families@),
{
    let mut graphics_found = false;
    let mut present_found = false;
    let mut i: usize = 0;
    while i < queue_families.len()
        invariant
            i <= queue_families.len(),
            graphics_found == exists|j: int|
                0 <= j < i && offers_graphics(#[trigger] queue_families@[j]),
            present_found == exists|j: int|
                0 <= j < i && offers_present(#[trigger] queue_families@[j]),
        decreases queue_families.len() - i,
    {
        let queue_family = queue_families[i];
        if queue_family.queue_count > 0 {
            if supports_graphics(queue_family.queue_flags) {
                assert(offers_graphics(queue_families@[i as int]));
                graphics_found = true;
            }
            if queue_family.present_support {
                assert(offers_present(queue_families@[i as int]));
                present_found = true;
            }
        }
        i += 1;
    }
    graphics_found && present_found
}

/// Whether the device has every required extension.
pub fn check_extension_support(available: &Vec<String>, required: &Vec<String>) -> (supported: bool)
    ensures
        supported == all_present(available@, required@),
{
    has_all_names(available, required)
}

/// Whether the surface advertises at least one format and one present mode.
pub fn check_swapchain_support(details: &SwapchainSupportDetails) -> (adequate: bool)
    ensures
        adequate == swapchain_adequate(details),
{
    !(details.formats.len() == 0 || details.present_modes.len() == 0)
}

/// Whether all three suitability predicates hold of the device.
pub fn is_suitable_physical_device(device: &PhysicalDeviceFacts, required: &Vec<String>) -> (ok:
    bool)
    ensures
        ok == suitable(device, required@),
{
    let queue_families_ok = check_queue_families(&device.queue_families);
    let extension_support_ok = check_extension_support(&device.extensions, required);
    let swapchain_support_ok = extension_support_ok && check_swapchain_support(
        &device.swapchain_support,
    );

    queue_families_ok && extension_support_ok && swapchain_support_ok
}

/// Picks the first suitable device in enumeration order, by its position.
pub fn select_physical_device(devices: &Vec<PhysicalDeviceFacts>, required: &Vec<String>) -> (chosen:
    Result<usize, SetupError>)
    ensures
        match chosen {
            Ok(index) => is_first_suitable(devices@, required@, index as int),
            Err(error) => error == SetupError::NoSuitableDevice && forall|j: int|
                0 <= j < devices.len() ==> !suitable(&#[trigger] devices@[j], required@),
        },
{
    let mut i: usize = 0;
    while i < devices.len()
        invariant
            i <= devices.len(),
            forall|j: int| 0 <= j < i ==> !suitable(&#[trigger] devices@[j], required@),
        decreases devices.len() - i,
    {
        if is_suitable_physical_device(&devices[i], required) {
            return Ok(i);
        }
        i += 1;
    }
    Err(SetupError::NoSuitableDevice)
}

/// The queue requests for a device whose families are resolved.
pub fn device_queue_requests(indices: &QueueFamilyIndices) -> (requests: Vec<DeviceQueueCreateInfo>)
    requires
        indices.complete(),
    ensures
        requests@ == queue_requests_for(*indices),
{
    let graphics = indices.graphics_family_index.unwrap();
    let present = indices.present_family_index.unwrap();
    if graphics == present {
        vec![DeviceQueueCreateInfo { queue_family_index: graphics, queue_count: 1 }]
    } else {
        vec![
            DeviceQueueCreateInfo { queue_family_index: graphics, queue_count: 1 },
            DeviceQueueCreateInfo { queue_family_index: present, queue_count: 1 },
        ]
    }
}

/// Where the queue for drawing and the queue for presenting are found on the
/// created device, in this order: the first queue of each family.
pub fn device_queue_slots(indices: &QueueFamilyIndices) -> (slots: (QueueSlot, QueueSlot))
    requires
        indices.complete(),
    ensures
        slots.0 == first_queue_of(indices.graphics_family_index.unwrap()),
        slots.1 == first_queue_of(indices.present_family_index.unwrap()),
{
    (
        QueueSlot { queue_family_index: indices.graphics_family_index.unwrap(), queue_index: 0 },
        QueueSlot { queue_family_index: indices.present_family_index.unwrap(), queue_index: 0 },
    )
}

/// Resolves the families of the chosen device and lays out its logical
/// device: one queue request per distinct family, the required extensions
/// with the swapchain extension among them, and no optional feature.
pub fn create_logical_device(
    queue_families: &Vec<QueueFamilyProperties>,
    required: &Vec<String>,
) -> (created: (DeviceCreateInfo, QueueFamilyIndices))
    requires
        queue_families.len() <= u32::MAX,
        queue_families_complete(queue_families@),
    ensures
        resolves(queue_families@, created.1),
        created.1.complete(),
        created.0.queue_create_infos@ == queue_requests_for(created.1),
        texts(created.0.enabled_extensions@) == device_extensions_for(required@),
        !created.0.optional_features_enabled,
{
    let queue_family_indices = find_queue_family(queue_families);
    let queue_create_infos = device_queue_requests(&queue_family_indices);
    let swapchain_name = swapchain_extension_name();
    let mut enabled_extensions: Vec<String> = Vec::new();
    if !has_name(required, &swapchain_name) {
        enabled_extensions.push(swapchain_name);
    }
    let ghost prefix = enabled_extensions@;
    let mut i: usize = 0;
    while i < required.len()
        invariant
            i <= required.len(),
            enabled_extensions@.len() == prefix.len() + i,
            forall|k: int| 0 <= k < prefix.len() ==> #[trigger] enabled_extensions@[k] == prefix[k],
            forall|k: int|
                0 <= k < i ==> (#[trigger] enabled_extensions@[prefix.len() + k])@ == required@[k]@,
        decreases required.len() - i,
    {
        enabled_extensions.push(required[i].clone());
        i += 1;
    }
    assert forall|k: int| 0 <= k < enabled_extensions@.len() implies texts(
        enabled_extensions@,
    )[k] == (texts(prefix) + texts(required@))[k] by {
        if k >= prefix.len() {
            assert(enabled_extensions@[prefix.len() + (k - prefix.len())]@ == required@[k
                - prefix.len()]@);
        }
    }
    assert(texts(enabled_extensions@) =~= texts(prefix) + texts(required@));
    assert(texts(enabled_extensions@) =~= device_extensions_for(required@));
    (
        DeviceCreateInfo {
            queue_create_infos,
            enabled_extensions,
            optional_features_enabled: false,
        },
        queue_family_indices,
    )
}

/// The two devices were probed with the same results.
pub open spec fn same_facts(a: &PhysicalDeviceFacts, b: &PhysicalDeviceFacts) -> bool {
    &&& a.queue_families@ == b.queue_families@
    &&& texts(a.extensions@) == texts(b.extensions@)
    &&& a.swapchain_support.capabilities == b.swapchain_support.capabilities
    &&& a.swapchain_support.formats@ == b.swapchain_support.formats@
    &&& a.swapchain_support.present_modes@ == b.swapchain_support.present_modes@
}

/// A device that lacks a required extension is not suitable, whatever its
/// queue families and its surface offer, and so is never the one selected.
pub proof fn missing_extension_is_never_selected(
    devices: Seq<PhysicalDeviceFacts>,
    required: Seq<String>,
    index: int,
)
    requires
        0 <= index < devices.len(),
        !all_present(devices[index].extensions@, required),
    ensures
        !suitable(&devices[index], required),
        !is_first_suitable(devices, required, index),
{
}

/// Suitability is decided by the probed facts alone.
pub proof fn suitability_depends_on_facts(
    a: &PhysicalDeviceFacts,
    b: &PhysicalDeviceFacts,
    required: Seq<String>,
)
    requires
        same_facts(a, b),
    ensures
        suitable(a, required) == suitable(b, required),
{
    assert(a.extensions@.len() == b.extensions@.len()) by {
        assert(texts(a.extensions@).len() == texts(b.extensions@).len());
    }
    assert forall|j: int| 0 <= j < a.extensions@.len() implies (#[trigger] a.extensions@[j])@
        == b.extensions@[j]@ by {
        assert(texts(a.extensions@)[j] == texts(b.extensions@)[j]);
    }
    assert forall|text: Seq<char>|
        contains_name(a.extensions@, text) == contains_name(b.extensions@, text) by {
        if contains_name(a.extensions@, text) {
            let j = choose|j: int|
                0 <= j < a.extensions@.len() && (#[trigger] a.extensions@[j])@ == text;
            assert(b.extensions@[j]@ == text);
        }
        if contains_name(b.extensions@, text) {
            let j = choose|j: int|
                0 <= j < b.extensions@.len() && (#[trigger] b.extensions@[j])@ == text;
            assert(a.extensions@[j]@ == text);
        }
    }
}

/// Selection is first-fit and decided by the enumeration alone: two
/// enumerations that agree on the facts, position by position, have their
/// first suitable device at the same position. In particular one
/// enumeration has at most one such position.
pub proof fn selection_is_order_stable(
    a: Seq<PhysicalDeviceFacts>,
    b: Seq<PhysicalDeviceFacts>,
    required: Seq<String>,
    first_of_a: int,
    first_of_b: int,
)
    requires
        a.len() == b.len(),
        forall|k: int| 0 <= k < a.len() ==> same_facts(&#[trigger] a[k], &b[k]),
        is_first_suitable(a, required, first_of_a),
        is_first_suitable(b, required, first_of_b),
    ensures
        first_of_a == first_of_b,
{
    assert(same_facts(&a[first_of_a], &b[first_of_a]));
    assert(same_facts(&a[first_of_b], &b[first_of_b]));
    suitability_depends_on_facts(&a[first_of_a], &b[first_of_a], required);
    suitability_depends_on_facts(&a[first_of_b], &b[first_of_b], required);
    if first_of_a < first_of_b {
        assert(!suitable(&b[first_of_a], required));
    }
    if first_of_b < first_of_a {
        assert(!suitable(&a[first_of_b], required));
    }
}

/// Devices enumerated after the selected one have no say: the first
/// suitable position stays what it is when the enumeration goes on.
pub proof fn selection_ignores_later_devices(
    devices: Seq<PhysicalDeviceFacts>,
    more: Seq<PhysicalDeviceFacts>,
    required: Seq<String>,
    index: int,
)
    requires
        is_first_suitable(devices, required, index),
    ensures
        is_first_suitable(devices + more, required, index),
{
    assert((devices + more)[index] == devices[index]);
    assert forall|j: int| 0 <= j < index implies !suitable(
        &#[trigger] (devices + more)[j],
        required,
    ) by {
        assert((devices + more)[j] == devices[j]);
    }
}

} // verus!

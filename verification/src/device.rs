//! The choice of the physical device, and of what is switched on in it.
use vstd::prelude::*;
use vulkano::device::{DeviceExtensions, DeviceFeatures, QueueFlags};
use vulkano::instance::InstanceExtensions;
use vulkano::Version;

use crate::vulkan;
use crate::vulkan::{
    compute_flag, device_extension, graphics_flag, instance_extension, transfer_flag,
};
use crate::vulkan::{COMPUTE_BIT, GRAPHICS_BIT, TRANSFER_BIT};

verus! {

/// A version of the Vulkan API.
#[derive(Clone, Copy, Debug, PartialEq, Eq, Structural)]
pub struct ApiVersion {
    pub major: u32,
    pub minor: u32,
    pub patch: u32,
}

impl ApiVersion {
    /// The first version with these major and minor numbers.
    #[verifier::allow_in_spec]
    pub fn major_minor(major: u32, minor: u32) -> ApiVersion
        returns
            (ApiVersion { major, minor, patch: 0 }),
    {
        ApiVersion { major, minor, patch: 0 }
    }

    /// The order of versions: the major number counts first, the patch number last.
    pub open spec fn reaches(self, floor: ApiVersion) -> bool {
        ||| self.major > floor.major
        ||| self.major == floor.major && self.minor > floor.minor
        ||| self.major == floor.major && self.minor == floor.minor && self.patch >= floor.patch
    }
}

/// The order of `vulkano::Version`, which compares the major number, then the minor number,
/// then the patch number.
#[verifier::external_body]
fn version_reaches(version: ApiVersion, floor: ApiVersion) -> (reached: bool)
    ensures
        reached == version.reaches(floor),
{
    Version { major: version.major, minor: version.minor, patch: version.patch }
        >= Version { major: floor.major, minor: floor.minor, patch: floor.patch }
}

/// The kind of a physical device.
#[derive(Clone, Copy, Debug, PartialEq, Eq, Structural)]
pub enum DeviceType {
    DiscreteGpu,
    IntegratedGpu,
    VirtualGpu,
    Cpu,
    Other,
    /// A kind that has no name here.
    Unrecognized,
}

impl DeviceType {
    /// How late the kind comes in the order of preference.
    pub open spec fn preference(self) -> int {
        match self {
            DeviceType::DiscreteGpu => 0,
            DeviceType::IntegratedGpu => 1,
            DeviceType::VirtualGpu => 2,
            DeviceType::Cpu => 3,
            DeviceType::Other => 4,
            DeviceType::Unrecognized => 5,
        }
    }

    /// The rank of the kind: a lower rank is preferred.
    pub fn rank(self) -> (rank: u32)
        ensures
            rank == self.preference(),
    {
        match self {
            DeviceType::DiscreteGpu => 0,
            DeviceType::IntegratedGpu => 1,
            DeviceType::VirtualGpu => 2,
            DeviceType::Cpu => 3,
            DeviceType::Other => 4,
            DeviceType::Unrecognized => 5,
        }
    }
}

/// One queue family of a physical device.
#[derive(Clone, Copy)]
pub struct QueueFamily {
    /// What the queues of the family execute.
    pub queue_flags: QueueFlags,
    /// Whether the queues of the family present to the display of the program.
    pub presents: bool,
}

/// The flags are those of a family that executes graphics, compute or transfer operations.
pub open spec fn has_wanted_flag(queue_flags: QueueFlags) -> bool {
    let bits = vulkan::queue_flag_bits(queue_flags);
    bits.contains(GRAPHICS_BIT) || bits.contains(COMPUTE_BIT) || bits.contains(TRANSFER_BIT)
}

/// Whether a family with these flags executes graphics, compute or transfer operations, so that it
/// is worth asking whether it presents.
pub fn executes_wanted(queue_flags: QueueFlags) -> (wanted: bool)
    ensures
        wanted == has_wanted_flag(queue_flags),
        wanted <==> !vulkan::queue_flag_bits(queue_flags).disjoint(
            set![GRAPHICS_BIT, COMPUTE_BIT, TRANSFER_BIT],
        ),
{
    let wanted = graphics_flag().union(compute_flag()).union(transfer_flag());
    assert(vulkan::queue_flag_bits(wanted) =~= set![GRAPHICS_BIT, COMPUTE_BIT, TRANSFER_BIT]);
    queue_flags.intersects(wanted)
}

impl QueueFamily {
    /// A family is usable if it presents and executes graphics, compute or transfer operations.
    pub open spec fn usable(self) -> bool {
        has_wanted_flag(self.queue_flags) && self.presents
    }

    /// Whether the program can run on the queues of this family.
    pub fn is_usable(&self) -> (usable: bool)
        ensures
            usable == self.usable(),
    {
        executes_wanted(self.queue_flags) && self.presents
    }
}

/// `index` is the place of the first usable family.
pub open spec fn is_first_usable(families: Seq<QueueFamily>, index: int) -> bool {
    &&& 0 <= index < families.len()
    &&& families[index].usable()
    &&& forall|earlier: int| 0 <= earlier < index ==> !(#[trigger] families[earlier]).usable()
}

/// `known` is what is known of the families if they are asked in turn whether they present, and only
/// those with a wanted flag, and none after the first that does.
pub open spec fn asked_in_turn(families: Seq<QueueFamily>, known: Seq<QueueFamily>) -> bool {
    &&& known.len() == families.len()
    &&& forall|index: int|
        0 <= index < families.len() ==> {
            &&& (#[trigger] known[index]).queue_flags == families[index].queue_flags
            &&& known[index].presents <==> {
                &&& families[index].usable()
                &&& forall|earlier: int|
                    0 <= earlier < index ==> !(#[trigger] families[earlier]).usable()
            }
        }
}

/// What is known of a physical device before one is chosen.
pub struct PhysicalDevice {
    pub api_version: ApiVersion,
    pub device_type: DeviceType,
    pub supported_extensions: DeviceExtensions,
    pub supported_features: DeviceFeatures,
    pub queue_families: Vec<QueueFamily>,
}

impl PhysicalDevice {
    /// The names of the extensions that the device supports.
    pub open spec fn supported_names(self) -> Set<Seq<char>> {
        vulkan::extension_names(self.supported_extensions)
    }

    /// What `VK_KHR_maintenance2` offers is there, by the version or as an extension.
    pub open spec fn has_maintenance2(self) -> bool {
        ||| self.api_version.reaches(ApiVersion::major_minor(1, 1))
        ||| self.supported_names().contains("VK_KHR_maintenance2"@)
    }

    /// The device is a candidate for a program with these requirements.
    pub open spec fn suits(self, required: Set<Seq<char>>, features: DeviceFeatures) -> bool {
        &&& self.has_maintenance2()
        &&& required.subset_of(self.supported_names())
        &&& vulkan::feature_names(features).subset_of(
            vulkan::feature_names(self.supported_features),
        )
        &&& exists|family: int|
            0 <= family < self.queue_families@.len()
                && (#[trigger] self.queue_families@[family]).usable()
    }

    /// The names of what is switched on in the device for a program that requires the given
    /// extensions: those, and what an older version needs beside them.
    pub open spec fn names_to_enable(self, required: Set<Seq<char>>) -> Set<Seq<char>> {
        let maintained = if self.api_version.reaches(ApiVersion::major_minor(1, 1)) {
            required
        } else {
            required.insert("VK_KHR_maintenance2"@)
        };
        if !self.api_version.reaches(ApiVersion::major_minor(1, 2))
            && self.supported_names().contains("VK_KHR_image_format_list"@) {
            maintained.insert("VK_KHR_image_format_list"@)
        } else {
            maintained
        }
    }

    /// Whether the device supports the extension of that name.
    fn supports(&self, name: &str) -> (supported: bool)
        requires
            vulkan::names_device_extension(name@),
        ensures
            supported == self.supported_names().contains(name@),
    {
        let wanted = device_extension(name);
        assert(vulkan::extension_names(wanted).contains(name@));
        self.supported_extensions.contains(&wanted)
    }

    /// The place of the first usable queue family.
    pub fn first_usable_family(&self) -> (found: Option<usize>)
        ensures
            match found {
                Some(index) => is_first_usable(self.queue_families@, index as int),
                None => forall|index: int|
                    0 <= index < self.queue_families@.len()
                        ==> !(#[trigger] self.queue_families@[index]).usable(),
            },
    {
        let mut index: usize = 0;
        while index < self.queue_families.len()
            invariant
                index <= self.queue_families@.len(),
                forall|earlier: int|
                    0 <= earlier < index ==> !(#[trigger] self.queue_families@[earlier]).usable(),
            decreases self.queue_families@.len() - index,
        {
            if self.queue_families[index].is_usable() {
                return Some(index);
            }
            index += 1;
        }
        None
    }

    /// The place of the queue family to run on, if the device is a candidate at all.
    pub fn candidate_family(
        &self,
        extensions: &DeviceExtensions,
        features: &DeviceFeatures,
    ) -> (found: Option<usize>)
        ensures
            found is Some <==> self.suits(vulkan::extension_names(*extensions), *features),
            found matches Some(index) ==> is_first_usable(self.queue_families@, index as int),
    {
        if !(version_reaches(self.api_version, ApiVersion::major_minor(1, 1)) || self.supports(
            "VK_KHR_maintenance2",
        )) {
            return None;
        }
        if !(self.supported_extensions.contains(extensions) && self.supported_features.contains(
            features,
        )) {
            return None;
        }
        self.first_usable_family()
    }

    /// The extensions to switch on in the device.
    pub fn extensions_to_enable(&self, required: &DeviceExtensions) -> (enabled: DeviceExtensions)
        ensures
            vulkan::extension_names(enabled) == self.names_to_enable(
                vulkan::extension_names(*required),
            ),
    {
        let mut enabled = *required;
        if !version_reaches(self.api_version, ApiVersion::major_minor(1, 1)) {
            enabled = enabled.union(&device_extension("VK_KHR_maintenance2"));
        }
        if !version_reaches(self.api_version, ApiVersion::major_minor(1, 2)) && self.supports(
            "VK_KHR_image_format_list",
        ) {
            enabled = enabled.union(&device_extension("VK_KHR_image_format_list"));
        }
        assert(vulkan::extension_names(enabled) =~= self.names_to_enable(
            vulkan::extension_names(*required),
        ));
        enabled
    }
}

/// `index` is the place of the preferred candidate: no candidate has a lower rank, and none
/// before it has the same rank.
pub open spec fn is_preferred(
    devices: Seq<PhysicalDevice>,
    required: Set<Seq<char>>,
    features: DeviceFeatures,
    index: int,
) -> bool {
    &&& 0 <= index < devices.len()
    &&& devices[index].suits(required, features)
    &&& forall|other: int|
        0 <= other < devices.len() && (#[trigger] devices[other]).suits(required, features) ==> {
            ||| devices[index].device_type.preference() < devices[other].device_type.preference()
            ||| devices[index].device_type.preference() == devices[other].device_type.preference()
                && index <= other
        }
}

/// `number` is the number of the first usable family.
pub open spec fn is_chosen_family(families: Seq<QueueFamily>, number: u32) -> bool {
    exists|family: int| #[trigger] is_first_usable(families, family) && number == family as u32
}

/// A physical device and a queue family, each by its place in the list that it was chosen from.
#[derive(Clone, Copy, Debug, PartialEq, Eq, Structural)]
pub struct DeviceChoice {
    pub device_index: usize,
    pub queue_family_index: u32,
}

/// Chooses the preferred candidate among the devices, and its first usable queue family.
pub fn select_device(
    devices: &Vec<PhysicalDevice>,
    extensions: &DeviceExtensions,
    features: &DeviceFeatures,
) -> (choice: Option<DeviceChoice>)
    ensures
        match choice {
            Some(chosen) => {
                &&& is_preferred(
                    devices@,
                    vulkan::extension_names(*extensions),
                    *features,
                    chosen.device_index as int,
                )
                &&& is_chosen_family(
                    devices@[chosen.device_index as int].queue_families@,
                    chosen.queue_family_index,
                )
            },
            None => forall|index: int|
                0 <= index < devices@.len() ==> !(#[trigger] devices@[index]).suits(
                    vulkan::extension_names(*extensions),
                    *features,
                ),
        },
{
    let mut best: Option<DeviceChoice> = None;
    let mut best_rank: u32 = 0;
    let mut index: usize = 0;
    while index < devices.len()
        invariant
            index <= devices@.len(),
            match best {
                Some(chosen) => {
                    &&& is_preferred(
                        devices@.take(index as int),
                        vulkan::extension_names(*extensions),
                        *features,
                        chosen.device_index as int,
                    )
                    &&& best_rank
                        == devices@[chosen.device_index as int].device_type.preference()
                    &&& is_chosen_family(
                        devices@[chosen.device_index as int].queue_families@,
                        chosen.queue_family_index,
                    )
                },
                None => forall|earlier: int|
                    0 <= earlier < index ==> !(#[trigger] devices@[earlier]).suits(
                        vulkan::extension_names(*extensions),
                        *features,
                    ),
            },
        decreases devices@.len() - index,
    {
        assert(devices@.take(index + 1) =~= devices@.take(index as int).push(
            devices@[index as int],
        ));
        if let Some(family) = devices[index].candidate_family(extensions, features) {
            let rank = devices[index].device_type.rank();
            if best.is_none() || rank < best_rank {
                best = Some(
                    DeviceChoice { device_index: index, queue_family_index: family as u32 },
                );
                best_rank = rank;
            }
        }
        index += 1;
    }
    assert(devices@.take(index as int) =~= devices@);
    best
}

/// The names of the device extensions that the program requires, given those that its bindless
/// descriptors require.
pub open spec fn required_names(bindless: Set<Seq<char>>) -> Set<Seq<char>> {
    bindless.insert("VK_KHR_swapchain"@).insert("VK_KHR_storage_buffer_storage_class"@)
}

/// The device extensions that the program requires.
pub fn required_extensions(bindless: &DeviceExtensions) -> (required: DeviceExtensions)
    ensures
        vulkan::extension_names(required) == required_names(
            vulkan::extension_names(*bindless),
        ),
{
    let required = bindless.union(&device_extension("VK_KHR_swapchain")).union(
        &device_extension("VK_KHR_storage_buffer_storage_class"),
    );
    assert(vulkan::extension_names(required) =~= required_names(
        vulkan::extension_names(*bindless),
    ));
    required
}

/// The instance extensions that the program requires, given those that its surface requires.
pub fn required_instance_extensions(surface: &InstanceExtensions) -> (required: InstanceExtensions)
    ensures
        vulkan::instance_extension_names(required)
            == vulkan::instance_extension_names(*surface).insert("VK_EXT_debug_utils"@),
{
    let required = surface.union(&instance_extension("VK_EXT_debug_utils"));
    assert(vulkan::instance_extension_names(required)
        =~= vulkan::instance_extension_names(*surface).insert("VK_EXT_debug_utils"@));
    required
}

/// How the instance is created.
pub struct InstancePlan {
    /// Whether devices count that only offer a part of Vulkan.
    pub enumerate_portability: bool,
    pub enabled_layers: Vec<&'static str>,
    pub enabled_extensions: InstanceExtensions,
}

/// Plans how the instance is created, given the extensions that the surface requires: with the
/// validation layer, and with the debug utilities.
pub fn plan_instance(surface: &InstanceExtensions) -> (plan: InstancePlan)
    ensures
        plan.enumerate_portability,
        plan.enabled_layers@.len() == 1,
        plan.enabled_layers@[0]@ == "VK_LAYER_KHRONOS_validation"@,
        vulkan::instance_extension_names(plan.enabled_extensions)
            == vulkan::instance_extension_names(*surface).insert("VK_EXT_debug_utils"@),
{
    let mut enabled_layers: Vec<&'static str> = Vec::new();
    enabled_layers.push("VK_LAYER_KHRONOS_validation");
    InstancePlan {
        enumerate_portability: true,
        enabled_layers,
        enabled_extensions: required_instance_extensions(surface),
    }
}

/// The device to open, the queue family to take a queue from, and what to switch on.
pub struct DevicePlan {
    pub device_index: usize,
    pub queue_family_index: u32,
    pub enabled_extensions: DeviceExtensions,
    pub enabled_features: DeviceFeatures,
}

/// Plans which device is opened and how, given what the bindless descriptors require of it.
pub fn plan_device(
    devices: &Vec<PhysicalDevice>,
    bindless: &DeviceExtensions,
    features: &DeviceFeatures,
) -> (plan: Option<DevicePlan>)
    ensures
        ({
            let required = required_names(vulkan::extension_names(*bindless));
            match plan {
                Some(plan) => {
                    &&& is_preferred(devices@, required, *features, plan.device_index as int)
                    &&& is_chosen_family(
                        devices@[plan.device_index as int].queue_families@,
                        plan.queue_family_index,
                    )
                    &&& vulkan::extension_names(plan.enabled_extensions)
                        == devices@[plan.device_index as int].names_to_enable(required)
                    &&& vulkan::extension_names(plan.enabled_extensions).subset_of(
                        devices@[plan.device_index as int].supported_names(),
                    )
                    &&& plan.enabled_features == *features
                },
                None => forall|index: int|
                    0 <= index < devices@.len() ==> !(#[trigger] devices@[index]).suits(
                        required,
                        *features,
                    ),
            }
        }),
{
    let required = required_extensions(bindless);
    match select_device(devices, &required, features) {
        Some(choice) => {
            let enabled_extensions = devices[choice.device_index].extensions_to_enable(&required);
            proof {
                lemma_enabled_extensions_are_supported(
                    devices@[choice.device_index as int],
                    vulkan::extension_names(required),
                    *features,
                );
            }
            Some(
                DevicePlan {
                    device_index: choice.device_index,
                    queue_family_index: choice.queue_family_index,
                    enabled_extensions,
                    enabled_features: *features,
                },
            )
        },
        None => None,
    }
}

/// No two devices are both preferred: the choice among given devices is a single one.
pub proof fn lemma_preferred_is_unique(
    devices: Seq<PhysicalDevice>,
    required: Set<Seq<char>>,
    features: DeviceFeatures,
    one: int,
    other: int,
)
    requires
        is_preferred(devices, required, features, one),
        is_preferred(devices, required, features, other),
    ensures
        one == other,
{
}

/// Wherever there is a candidate, some candidate is preferred.
pub proof fn lemma_some_candidate_is_preferred(
    devices: Seq<PhysicalDevice>,
    required: Set<Seq<char>>,
    features: DeviceFeatures,
    candidate: int,
)
    requires
        0 <= candidate < devices.len(),
        devices[candidate].suits(required, features),
    ensures
        exists|index: int| is_preferred(devices, required, features, index),
    decreases devices.len(),
{
    let last = devices.len() - 1;
    let earlier = devices.drop_last();
    assert(forall|i: int| 0 <= i < last ==> devices[i] == earlier[i]);
    if exists|i: int| 0 <= i < last && (#[trigger] devices[i]).suits(required, features) {
        let witness = choose|i: int|
            0 <= i < last && (#[trigger] devices[i]).suits(required, features);
        assert(earlier[witness].suits(required, features));
        lemma_some_candidate_is_preferred(earlier, required, features, witness);
        let best = choose|index: int| is_preferred(earlier, required, features, index);
        assert(devices[best] == earlier[best]);
        if devices[last].suits(required, features) && devices[last].device_type.preference()
            < devices[best].device_type.preference() {
            assert(is_preferred(devices, required, features, last));
        } else {
            assert(is_preferred(devices, required, features, best));
        }
    } else {
        assert(is_preferred(devices, required, features, candidate));
    }
}

/// Every extension that is switched on in a candidate is one that the candidate supports.
pub proof fn lemma_enabled_extensions_are_supported(
    device: PhysicalDevice,
    required: Set<Seq<char>>,
    features: DeviceFeatures,
)
    requires
        device.suits(required, features),
    ensures
        device.names_to_enable(required).subset_of(device.supported_names()),
{
}

/// Every extension that the program requires is switched on.
pub proof fn lemma_required_extensions_are_enabled(device: PhysicalDevice, required: Set<Seq<char>>)
    ensures
        required.subset_of(device.names_to_enable(required)),
{
}

/// Families that were not asked make no difference to the choice among them.
pub proof fn lemma_asking_in_turn_suffices(
    families: Seq<QueueFamily>,
    known: Seq<QueueFamily>,
    index: int,
)
    requires
        asked_in_turn(families, known),
    ensures
        is_first_usable(families, index) <==> is_first_usable(known, index),
{
    assert forall|i: int| 0 <= i < families.len() implies (#[trigger] known[i]).usable() == (
    families[i].usable() && forall|earlier: int|
        0 <= earlier < i ==> !(#[trigger] families[earlier]).usable()) by {}
    if is_first_usable(known, index) {
        assert(families[index].usable());
    }
    if is_first_usable(families, index) {
        assert forall|earlier: int| 0 <= earlier < index implies !(
        #[trigger] known[earlier]).usable() by {
            assert(!families[earlier].usable());
        }
    }
}

/// The number of the queue family is its exact place, and that family is usable, as long as the
/// places of all families are numbers of 32 bits.
pub proof fn lemma_chosen_family_is_usable(families: Seq<QueueFamily>, number: u32)
    requires
        families.len() <= u32::MAX + 1,
        is_chosen_family(families, number),
    ensures
        is_first_usable(families, number as int),
        families[number as int].usable(),
{
}

/// Versions are ordered as the numbers whose digits of 32 bits are the major number, the minor
/// number and the patch number.
pub proof fn lemma_versions_are_ordered_as_numbers(version: ApiVersion, floor: ApiVersion)
    ensures
        version.reaches(floor) <==> version.major * 0x1_0000_0000_0000_0000int + version.minor
            * 0x1_0000_0000int + version.patch >= floor.major * 0x1_0000_0000_0000_0000int
            + floor.minor * 0x1_0000_0000int + floor.patch,
{
}

/// The patch number makes no difference to whether a version reaches a major and a minor number.
pub proof fn lemma_patches_make_no_difference(version: ApiVersion, major: u32, minor: u32)
    ensures
        version.reaches(ApiVersion::major_minor(major, minor)) <==> version.major
            * 0x1_0000_0000int + version.minor >= major * 0x1_0000_0000int + minor,
{
}

/// The order of preference: discrete, integrated and virtual graphics processors, then plain
/// processors, then other kinds, and last those without a name.  No two kinds share a place.
pub proof fn lemma_kinds_have_an_order()
    ensures
        DeviceType::DiscreteGpu.preference() < DeviceType::IntegratedGpu.preference(),
        DeviceType::IntegratedGpu.preference() < DeviceType::VirtualGpu.preference(),
        DeviceType::VirtualGpu.preference() < DeviceType::Cpu.preference(),
        DeviceType::Cpu.preference() < DeviceType::Other.preference(),
        DeviceType::Other.preference() < DeviceType::Unrecognized.preference(),
        forall|one: DeviceType, other: DeviceType|
            #![trigger one.preference(), other.preference()]
            one.preference() == other.preference() ==> one == other,
{
}

/// Flags are wanted if and only if they share a bit with graphics, compute and transfer; what other
/// bits they have makes no difference.
pub proof fn lemma_one_wanted_bit_suffices(queue_flags: QueueFlags)
    ensures
        has_wanted_flag(queue_flags) <==> exists|bit: u32|
            {
                &&& #[trigger] vulkan::queue_flag_bits(queue_flags).contains(bit)
                &&& set![GRAPHICS_BIT, COMPUTE_BIT, TRANSFER_BIT].contains(bit)
            },
        has_wanted_flag(queue_flags) <==> !vulkan::queue_flag_bits(queue_flags).disjoint(
            set![GRAPHICS_BIT, COMPUTE_BIT, TRANSFER_BIT],
        ),
{
    let bits = vulkan::queue_flag_bits(queue_flags);
    let wanted = set![GRAPHICS_BIT, COMPUTE_BIT, TRANSFER_BIT];
    assert(wanted.contains(GRAPHICS_BIT));
    assert(wanted.contains(COMPUTE_BIT));
    assert(wanted.contains(TRANSFER_BIT));
    if has_wanted_flag(queue_flags) {
        assert(exists|bit: u32| #[trigger] bits.contains(bit) && wanted.contains(bit));
    }
}

/// More flags do no harm: whatever a family with some of the flags can be used for, a family with
/// all of them can be used for as well.
pub proof fn lemma_more_flags_do_no_harm(family: QueueFamily, other: QueueFamily)
    requires
        vulkan::queue_flag_bits(family.queue_flags).subset_of(
            vulkan::queue_flag_bits(other.queue_flags),
        ),
        family.presents ==> other.presents,
    ensures
        has_wanted_flag(family.queue_flags) ==> has_wanted_flag(other.queue_flags),
        family.usable() ==> other.usable(),
{
}

/// A family that presents is usable as soon as it has any one of the three bits, and a usable family
/// presents and has one of them.
pub proof fn lemma_usable_families_present_and_execute(family: QueueFamily)
    ensures
        forall|bit: u32|
            family.presents && set![GRAPHICS_BIT, COMPUTE_BIT, TRANSFER_BIT].contains(bit)
                && #[trigger] vulkan::queue_flag_bits(family.queue_flags).contains(bit)
                ==> family.usable(),
        family.usable() ==> family.presents && exists|bit: u32|
            {
                &&& #[trigger] vulkan::queue_flag_bits(family.queue_flags).contains(bit)
                &&& set![GRAPHICS_BIT, COMPUTE_BIT, TRANSFER_BIT].contains(bit)
            },
{
    lemma_one_wanted_bit_suffices(family.queue_flags);
}

/// A device is a candidate as soon as it has the version or the extension, the extensions and the
/// features that are required, and any one family that presents and has a wanted bit.
pub proof fn lemma_devices_with_all_requirements_are_candidates(
    device: PhysicalDevice,
    required: Set<Seq<char>>,
    features: DeviceFeatures,
    family: int,
    bit: u32,
)
    requires
        device.api_version.major * 0x1_0000_0000int + device.api_version.minor
            >= 0x1_0000_0000int + 1 || vulkan::extension_names(
            device.supported_extensions,
        ).contains("VK_KHR_maintenance2"@),
        required.subset_of(vulkan::extension_names(device.supported_extensions)),
        vulkan::feature_names(features).subset_of(
            vulkan::feature_names(device.supported_features),
        ),
        0 <= family < device.queue_families@.len(),
        device.queue_families@[family].presents,
        set![GRAPHICS_BIT, COMPUTE_BIT, TRANSFER_BIT].contains(bit),
        vulkan::queue_flag_bits(device.queue_families@[family].queue_flags).contains(bit),
    ensures
        device.suits(required, features),
{
    lemma_patches_make_no_difference(device.api_version, 1, 1);
    lemma_usable_families_present_and_execute(device.queue_families@[family]);
    assert(device.queue_families@[family].usable());
}

/// A candidate has everything that is required of it.
pub proof fn lemma_candidates_have_all_requirements(
    device: PhysicalDevice,
    required: Set<Seq<char>>,
    features: DeviceFeatures,
)
    requires
        device.suits(required, features),
    ensures
        device.api_version.major * 0x1_0000_0000int + device.api_version.minor
            >= 0x1_0000_0000int + 1 || vulkan::extension_names(
            device.supported_extensions,
        ).contains("VK_KHR_maintenance2"@),
        required.subset_of(vulkan::extension_names(device.supported_extensions)),
        vulkan::feature_names(features).subset_of(
            vulkan::feature_names(device.supported_features),
        ),
        exists|family: int, bit: u32|
            {
                &&& 0 <= family < device.queue_families@.len()
                &&& device.queue_families@[family].presents
                &&& #[trigger] vulkan::queue_flag_bits(
                    device.queue_families@[family].queue_flags,
                ).contains(bit)
                &&& set![GRAPHICS_BIT, COMPUTE_BIT, TRANSFER_BIT].contains(bit)
            },
{
    lemma_patches_make_no_difference(device.api_version, 1, 1);
    let family = choose|family: int|
        0 <= family < device.queue_families@.len()
            && (#[trigger] device.queue_families@[family]).usable();
    lemma_usable_families_present_and_execute(device.queue_families@[family]);
}

/// A device that offers all that a candidate offers is a candidate itself.
pub proof fn lemma_devices_that_offer_more_are_candidates(
    device: PhysicalDevice,
    other: PhysicalDevice,
    required: Set<Seq<char>>,
    features: DeviceFeatures,
)
    requires
        device.suits(required, features),
        other.api_version.reaches(device.api_version),
        vulkan::extension_names(device.supported_extensions).subset_of(
            vulkan::extension_names(other.supported_extensions),
        ),
        vulkan::feature_names(device.supported_features).subset_of(
            vulkan::feature_names(other.supported_features),
        ),
        forall|family: int|
            0 <= family < device.queue_families@.len() ==> exists|more: int|
                {
                    &&& 0 <= more < other.queue_families@.len()
                    &&& vulkan::queue_flag_bits(
                        (#[trigger] device.queue_families@[family]).queue_flags,
                    ).subset_of(
                        vulkan::queue_flag_bits(
                            (#[trigger] other.queue_families@[more]).queue_flags,
                        ),
                    )
                    &&& device.queue_families@[family].presents
                        ==> other.queue_families@[more].presents
                },
    ensures
        other.suits(required, features),
{
    let family = choose|family: int|
        0 <= family < device.queue_families@.len()
            && (#[trigger] device.queue_families@[family]).usable();
    let more = choose|more: int|
        {
            &&& 0 <= more < other.queue_families@.len()
            &&& vulkan::queue_flag_bits(
                device.queue_families@[family].queue_flags,
            ).subset_of(
                vulkan::queue_flag_bits((#[trigger] other.queue_families@[more]).queue_flags),
            )
            &&& device.queue_families@[family].presents ==> other.queue_families@[more].presents
        };
    lemma_more_flags_do_no_harm(device.queue_families@[family], other.queue_families@[more]);
    assert(other.queue_families@[more].usable());
}

/// A candidate stays one for a program that requires less.
pub proof fn lemma_lesser_requirements_keep_candidates(
    device: PhysicalDevice,
    required: Set<Seq<char>>,
    features: DeviceFeatures,
    fewer: Set<Seq<char>>,
    fewer_features: DeviceFeatures,
)
    requires
        device.suits(required, features),
        fewer.subset_of(required),
        vulkan::feature_names(fewer_features).subset_of(vulkan::feature_names(features)),
    ensures
        device.suits(fewer, fewer_features),
{
}

/// Only one family is the first usable one.
pub proof fn lemma_first_usable_is_unique(families: Seq<QueueFamily>, one: int, other: int)
    requires
        is_first_usable(families, one),
        is_first_usable(families, other),
    ensures
        one == other,
{
}

/// A usable family is taken unless an earlier one is: the family that is taken stands no later than
/// any that presents and has a wanted bit.
pub proof fn lemma_no_usable_family_is_passed_over(
    families: Seq<QueueFamily>,
    taken: int,
    family: int,
    bit: u32,
)
    requires
        is_first_usable(families, taken),
        0 <= family < families.len(),
        families[family].presents,
        set![GRAPHICS_BIT, COMPUTE_BIT, TRANSFER_BIT].contains(bit),
        vulkan::queue_flag_bits(families[family].queue_flags).contains(bit),
    ensures
        0 <= taken <= family,
        families[taken].presents,
        has_wanted_flag(families[taken].queue_flags),
{
    lemma_usable_families_present_and_execute(families[family]);
}

/// Families after the first usable one make no difference.
pub proof fn lemma_later_families_make_no_difference(
    families: Seq<QueueFamily>,
    later: Seq<QueueFamily>,
    index: int,
)
    requires
        is_first_usable(families, index),
    ensures
        is_first_usable(families + later, index),
{
    assert forall|earlier: int| 0 <= earlier < index implies !(#[trigger] (families
        + later)[earlier]).usable() by {
        assert(!families[earlier].usable());
    }
}

/// The place of the first usable family is its number, wherever it is a number of 32 bits.
pub proof fn lemma_first_usable_family_is_chosen(families: Seq<QueueFamily>, number: u32)
    requires
        is_first_usable(families, number as int),
    ensures
        is_chosen_family(families, number),
{
}

/// The preferred device is of no worse kind than any candidate, and comes before every other
/// candidate of its own kind.
pub proof fn lemma_better_kinds_win(
    devices: Seq<PhysicalDevice>,
    required: Set<Seq<char>>,
    features: DeviceFeatures,
    index: int,
    other: int,
)
    requires
        is_preferred(devices, required, features, index),
        0 <= other < devices.len(),
        devices[other].suits(required, features),
    ensures
        devices[index].suits(required, features),
        ({
            let chosen = devices[index].device_type;
            match devices[other].device_type {
                DeviceType::DiscreteGpu => chosen is DiscreteGpu,
                DeviceType::IntegratedGpu => chosen is DiscreteGpu || chosen is IntegratedGpu,
                DeviceType::VirtualGpu => !(chosen is Cpu || chosen is Other
                    || chosen is Unrecognized),
                DeviceType::Cpu => !(chosen is Other || chosen is Unrecognized),
                DeviceType::Other => !(chosen is Unrecognized),
                DeviceType::Unrecognized => true,
            }
        }),
        devices[index].device_type == devices[other].device_type ==> index <= other,
{
}

/// A device that is no candidate makes no difference to the choice, at the end of the devices or
/// before them.
pub proof fn lemma_other_devices_make_no_difference(
    devices: Seq<PhysicalDevice>,
    required: Set<Seq<char>>,
    features: DeviceFeatures,
    device: PhysicalDevice,
    index: int,
)
    requires
        !device.suits(required, features),
    ensures
        is_preferred(devices.push(device), required, features, index) <==> is_preferred(
            devices,
            required,
            features,
            index,
        ),
        is_preferred(seq![device] + devices, required, features, index + 1) <==> is_preferred(
            devices,
            required,
            features,
            index,
        ),
{
    let after = devices.push(device);
    let before = seq![device] + devices;
    assert forall|i: int| 0 <= i < devices.len() implies after[i] == #[trigger] devices[i]
        && before[i + 1] == devices[i] by {}
    assert forall|i: int| 0 < i < before.len() implies #[trigger] before[i] == devices[i - 1] by {}
    if is_preferred(after, required, features, index) {
        assert(is_preferred(devices, required, features, index));
    }
    if is_preferred(devices, required, features, index) {
        assert(is_preferred(after, required, features, index));
        assert(is_preferred(before, required, features, index + 1));
    }
    if is_preferred(before, required, features, index + 1) {
        assert(index + 1 != 0);
        assert forall|other: int|
            0 <= other < devices.len() && (#[trigger] devices[other]).suits(
                required,
                features,
            ) implies devices[index].device_type.preference()
            < devices[other].device_type.preference() || devices[index].device_type.preference()
            == devices[other].device_type.preference() && index <= other by {
            assert(before[other + 1].suits(required, features));
        }
    }
}

/// A candidate at the end of the devices is chosen if and only if it is of a better kind than the
/// one that was chosen without it.
pub proof fn lemma_later_devices_win_by_kind_alone(
    devices: Seq<PhysicalDevice>,
    required: Set<Seq<char>>,
    features: DeviceFeatures,
    device: PhysicalDevice,
    index: int,
)
    requires
        is_preferred(devices, required, features, index),
        device.suits(required, features),
    ensures
        device.device_type.preference() < devices[index].device_type.preference()
            ==> is_preferred(devices.push(device), required, features, devices.len() as int),
        device.device_type.preference() >= devices[index].device_type.preference()
            ==> is_preferred(devices.push(device), required, features, index),
{
    let after = devices.push(device);
    assert forall|i: int| 0 <= i < devices.len() implies #[trigger] after[i] == devices[i] by {}
}

/// What is switched on, name by name: what is required, `VK_KHR_maintenance2` before version 1.1, and
/// `VK_KHR_image_format_list` before version 1.2 where the device supports it.
pub proof fn lemma_names_are_enabled_one_by_one(
    device: PhysicalDevice,
    required: Set<Seq<char>>,
    name: Seq<char>,
)
    ensures
        ({
            let version = device.api_version.major * 0x1_0000_0000int + device.api_version.minor;
            device.names_to_enable(required).contains(name) <==> {
                ||| required.contains(name)
                ||| name == "VK_KHR_maintenance2"@ && version < 0x1_0000_0000int + 1
                ||| name == "VK_KHR_image_format_list"@ && version < 0x1_0000_0000int + 2
                    && vulkan::extension_names(device.supported_extensions).contains(name)
            }
        }),
{
    lemma_patches_make_no_difference(device.api_version, 1, 1);
    lemma_patches_make_no_difference(device.api_version, 1, 2);
}

/// More requirements switch on exactly that much more.
pub proof fn lemma_further_requirements_are_enabled_too(
    device: PhysicalDevice,
    required: Set<Seq<char>>,
    more: Set<Seq<char>>,
)
    ensures
        device.names_to_enable(required.union(more)) == device.names_to_enable(required).union(
            more,
        ),
{
    assert(device.names_to_enable(required.union(more)) =~= device.names_to_enable(
        required,
    ).union(more));
}

/// The program requires the swapchain, the storage class of storage buffers, what its bindless
/// descriptors require, and nothing else.
pub proof fn lemma_names_are_required_one_by_one(bindless: Set<Seq<char>>, name: Seq<char>)
    ensures
        required_names(bindless).contains(name) <==> {
            ||| name == "VK_KHR_swapchain"@
            ||| name == "VK_KHR_storage_buffer_storage_class"@
            ||| bindless.contains(name)
        },
{
}

} // verus!

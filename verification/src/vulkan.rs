//! The flag and name sets of `vulkano` that the decisions read, and what is taken on trust
//! about them.
//!
//! A set is known to the verifier by its contents only: extensions and features by the names
//! that are set, bit flags by the positions of the bits that are set.
use vstd::prelude::*;
use vulkano::device::{DeviceExtensions, DeviceFeatures, QueueFlags};
use vulkano::instance::debug::{DebugUtilsMessageSeverity, DebugUtilsMessageType};
use vulkano::instance::InstanceExtensions;

verus! {

/// Declares `vulkano::device::DeviceExtensions`, a set of device extensions.
#[verifier::external_type_specification]
#[verifier::external_body]
pub struct ExDeviceExtensions(DeviceExtensions);

/// Declares `vulkano::instance::InstanceExtensions`, a set of instance extensions.
#[verifier::external_type_specification]
#[verifier::external_body]
pub struct ExInstanceExtensions(InstanceExtensions);

/// Declares `vulkano::device::DeviceFeatures`, a set of device features.
#[verifier::external_type_specification]
#[verifier::external_body]
pub struct ExDeviceFeatures(DeviceFeatures);

/// Declares `vulkano::device::QueueFlags`, the capabilities of a queue family.
#[verifier::external_type_specification]
#[verifier::external_body]
pub struct ExQueueFlags(QueueFlags);

/// Declares `vulkano::instance::debug::DebugUtilsMessageSeverity`.
#[verifier::external_type_specification]
#[verifier::external_body]
pub struct ExDebugUtilsMessageSeverity(DebugUtilsMessageSeverity);

/// Declares `vulkano::instance::debug::DebugUtilsMessageType`.
#[verifier::external_type_specification]
#[verifier::external_body]
pub struct ExDebugUtilsMessageType(DebugUtilsMessageType);

/// The Vulkan names (such as `VK_KHR_swapchain`) of the device extensions in a set.
pub uninterp spec fn extension_names(extensions: DeviceExtensions) -> Set<Seq<char>>;

/// The Vulkan names of the instance extensions in a set.
pub uninterp spec fn instance_extension_names(extensions: InstanceExtensions) -> Set<Seq<char>>;

/// The names of the features in a set.
pub uninterp spec fn feature_names(features: DeviceFeatures) -> Set<Seq<char>>;

/// The positions of the bits that are set in the flags of a queue family.
pub uninterp spec fn queue_flag_bits(flags: QueueFlags) -> Set<u32>;

/// The positions of the bits that are set in a message severity.
pub uninterp spec fn severity_bits(severity: DebugUtilsMessageSeverity) -> Set<u32>;

/// The positions of the bits that are set in a message type.
pub uninterp spec fn message_type_bits(message_type: DebugUtilsMessageType) -> Set<u32>;

/// The bit of queue families that execute graphics operations.
pub const GRAPHICS_BIT: u32 = 0;

/// The bit of queue families that execute compute operations.
pub const COMPUTE_BIT: u32 = 1;

/// The bit of queue families that execute transfer operations.
pub const TRANSFER_BIT: u32 = 2;

/// The bit of diagnostic messages.
pub const VERBOSE_BIT: u32 = 0;

/// The bit of informational messages.
pub const INFO_BIT: u32 = 4;

/// The bit of warnings.
pub const WARNING_BIT: u32 = 8;

/// The bit of errors.
pub const ERROR_BIT: u32 = 12;

/// The bit of messages about a general event.
pub const GENERAL_BIT: u32 = 0;

/// The bit of messages from validation.
pub const VALIDATION_BIT: u32 = 1;

/// The bit of messages about a non-optimal use.
pub const PERFORMANCE_BIT: u32 = 2;

/// The device extensions that the program names itself.
pub open spec fn names_device_extension(name: Seq<char>) -> bool {
    ||| name == "VK_KHR_swapchain"@
    ||| name == "VK_KHR_storage_buffer_storage_class"@
    ||| name == "VK_KHR_maintenance2"@
    ||| name == "VK_KHR_image_format_list"@
}

/// `FromIterator<&str>` of `DeviceExtensions`, on one name.  Each of the names admitted here
/// is the name of a member, and that member alone is then set.
#[verifier::external_body]
pub(crate) fn device_extension(name: &str) -> (extensions: DeviceExtensions)
    requires
        names_device_extension(name@),
    ensures
        extension_names(extensions) == set![name@],
{
    DeviceExtensions::from_iter([name])
}

/// `DeviceExtensions::union`: the members set in either set.
pub assume_specification[ DeviceExtensions::union ](
    extensions: &DeviceExtensions,
    other: &DeviceExtensions,
) -> (all: DeviceExtensions)
    ensures
        extension_names(all) == extension_names(*extensions).union(extension_names(*other)),
;

/// `DeviceExtensions::contains`: whether every member of `other` is set in `extensions`.
pub assume_specification[ DeviceExtensions::contains ](
    extensions: &DeviceExtensions,
    other: &DeviceExtensions,
) -> (all_set: bool)
    ensures
        all_set == extension_names(*other).subset_of(extension_names(*extensions)),
;

/// `FromIterator<&str>` of `InstanceExtensions`, on the name of the debug utilities, which is
/// the name of a member: that member alone is then set.
#[verifier::external_body]
pub(crate) fn instance_extension(name: &str) -> (extensions: InstanceExtensions)
    requires
        name@ == "VK_EXT_debug_utils"@,
    ensures
        instance_extension_names(extensions) == set![name@],
{
    InstanceExtensions::from_iter([name])
}

/// `InstanceExtensions::union`: the members set in either set.
pub assume_specification[ InstanceExtensions::union ](
    extensions: &InstanceExtensions,
    other: &InstanceExtensions,
) -> (all: InstanceExtensions)
    ensures
        instance_extension_names(all) == instance_extension_names(*extensions).union(
            instance_extension_names(*other),
        ),
;

/// `DeviceFeatures::contains`: whether every member of `other` is set in `features`.
pub assume_specification[ DeviceFeatures::contains ](
    features: &DeviceFeatures,
    other: &DeviceFeatures,
) -> (all_set: bool)
    ensures
        all_set == feature_names(*other).subset_of(feature_names(*features)),
;

/// The constant `QueueFlags::GRAPHICS`, a single bit.
#[verifier::external_body]
pub(crate) fn graphics_flag() -> (flags: QueueFlags)
    ensures
        queue_flag_bits(flags) == set![GRAPHICS_BIT],
{
    QueueFlags::GRAPHICS
}

/// The constant `QueueFlags::COMPUTE`, a single bit.
#[verifier::external_body]
pub(crate) fn compute_flag() -> (flags: QueueFlags)
    ensures
        queue_flag_bits(flags) == set![COMPUTE_BIT],
{
    QueueFlags::COMPUTE
}

/// The constant `QueueFlags::TRANSFER`, a single bit.
#[verifier::external_body]
pub(crate) fn transfer_flag() -> (flags: QueueFlags)
    ensures
        queue_flag_bits(flags) == set![TRANSFER_BIT],
{
    QueueFlags::TRANSFER
}

/// `QueueFlags::union`: the bits set in either value.
pub assume_specification[ QueueFlags::union ](flags: QueueFlags, other: QueueFlags) -> (all:
    QueueFlags)
    ensures
        queue_flag_bits(all) == queue_flag_bits(flags).union(queue_flag_bits(other)),
;

/// `QueueFlags::intersects`: whether some bit is set in both values.
pub assume_specification[ QueueFlags::intersects ](flags: QueueFlags, other: QueueFlags) -> (common:
    bool)
    ensures
        common == !queue_flag_bits(flags).disjoint(queue_flag_bits(other)),
;

/// The constant `DebugUtilsMessageSeverity::ERROR`, a single bit.
#[verifier::external_body]
pub(crate) fn error_severity() -> (severity: DebugUtilsMessageSeverity)
    ensures
        severity_bits(severity) == set![ERROR_BIT],
{
    DebugUtilsMessageSeverity::ERROR
}

/// The constant `DebugUtilsMessageSeverity::WARNING`, a single bit.
#[verifier::external_body]
pub(crate) fn warning_severity() -> (severity: DebugUtilsMessageSeverity)
    ensures
        severity_bits(severity) == set![WARNING_BIT],
{
    DebugUtilsMessageSeverity::WARNING
}

/// The constant `DebugUtilsMessageSeverity::INFO`, a single bit.
#[verifier::external_body]
pub(crate) fn info_severity() -> (severity: DebugUtilsMessageSeverity)
    ensures
        severity_bits(severity) == set![INFO_BIT],
{
    DebugUtilsMessageSeverity::INFO
}

/// The constant `DebugUtilsMessageSeverity::VERBOSE`, a single bit.
#[verifier::external_body]
pub(crate) fn verbose_severity() -> (severity: DebugUtilsMessageSeverity)
    ensures
        severity_bits(severity) == set![VERBOSE_BIT],
{
    DebugUtilsMessageSeverity::VERBOSE
}

/// `DebugUtilsMessageSeverity::union`: the bits set in either value.
pub assume_specification[ DebugUtilsMessageSeverity::union ](
    severity: DebugUtilsMessageSeverity,
    other: DebugUtilsMessageSeverity,
) -> (all: DebugUtilsMessageSeverity)
    ensures
        severity_bits(all) == severity_bits(severity).union(severity_bits(other)),
;

/// `DebugUtilsMessageSeverity::intersects`: whether some bit is set in both values.
pub assume_specification[ DebugUtilsMessageSeverity::intersects ](
    severity: DebugUtilsMessageSeverity,
    other: DebugUtilsMessageSeverity,
) -> (common: bool)
    ensures
        common == !severity_bits(severity).disjoint(severity_bits(other)),
;

/// The constant `DebugUtilsMessageType::GENERAL`, a single bit.
#[verifier::external_body]
pub(crate) fn general_type() -> (message_type: DebugUtilsMessageType)
    ensures
        message_type_bits(message_type) == set![GENERAL_BIT],
{
    DebugUtilsMessageType::GENERAL
}

/// The constant `DebugUtilsMessageType::VALIDATION`, a single bit.
#[verifier::external_body]
pub(crate) fn validation_type() -> (message_type: DebugUtilsMessageType)
    ensures
        message_type_bits(message_type) == set![VALIDATION_BIT],
{
    DebugUtilsMessageType::VALIDATION
}

/// The constant `DebugUtilsMessageType::PERFORMANCE`, a single bit.
#[verifier::external_body]
pub(crate) fn performance_type() -> (message_type: DebugUtilsMessageType)
    ensures
        message_type_bits(message_type) == set![PERFORMANCE_BIT],
{
    DebugUtilsMessageType::PERFORMANCE
}

/// `DebugUtilsMessageType::union`: the bits set in either value.
pub assume_specification[ DebugUtilsMessageType::union ](
    message_type: DebugUtilsMessageType,
    other: DebugUtilsMessageType,
) -> (all: DebugUtilsMessageType)
    ensures
        message_type_bits(all) == message_type_bits(message_type).union(message_type_bits(other)),
;

/// `DebugUtilsMessageType::intersects`: whether some bit is set in both values.
pub assume_specification[ DebugUtilsMessageType::intersects ](
    message_type: DebugUtilsMessageType,
    other: DebugUtilsMessageType,
) -> (common: bool)
    ensures
        common == !message_type_bits(message_type).disjoint(message_type_bits(other)),
;

} // verus!

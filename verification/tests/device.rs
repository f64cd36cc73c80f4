use texel_relay::device::{
    executes_wanted, plan_device, plan_instance, required_extensions, required_instance_extensions, select_device, ApiVersion,
    DeviceChoice, DeviceType, PhysicalDevice, QueueFamily,
};
use vulkano::device::{DeviceExtensions, DeviceFeatures, QueueFlags};
use vulkano::instance::InstanceExtensions;

fn swapchain_extensions() -> DeviceExtensions {
    DeviceExtensions {
        khr_swapchain: true,
        khr_storage_buffer_storage_class: true,
        ..DeviceExtensions::empty()
    }
}

fn family(queue_flags: QueueFlags, presents: bool) -> QueueFamily {
    QueueFamily { queue_flags, presents }
}

fn device(device_type: DeviceType) -> PhysicalDevice {
    PhysicalDevice {
        api_version: ApiVersion::major_minor(1, 3),
        device_type,
        supported_extensions: swapchain_extensions(),
        supported_features: DeviceFeatures::empty(),
        queue_families: vec![family(QueueFlags::GRAPHICS, true)],
    }
}

fn pick(devices: Vec<PhysicalDevice>) -> Option<DeviceChoice> {
    select_device(&devices, &swapchain_extensions(), &DeviceFeatures::empty())
}

#[test]
fn ranks_follow_the_order_of_preference() {
    assert_eq!(DeviceType::DiscreteGpu.rank(), 0);
    assert_eq!(DeviceType::IntegratedGpu.rank(), 1);
    assert_eq!(DeviceType::VirtualGpu.rank(), 2);
    assert_eq!(DeviceType::Cpu.rank(), 3);
    assert_eq!(DeviceType::Other.rank(), 4);
    assert_eq!(DeviceType::Unrecognized.rank(), 5);
}

#[test]
fn no_devices_no_choice() {
    assert_eq!(pick(vec![]), None);
}

#[test]
fn lowest_rank_wins() {
    let devices = vec![
        device(DeviceType::Cpu),
        device(DeviceType::IntegratedGpu),
        device(DeviceType::DiscreteGpu),
        device(DeviceType::VirtualGpu),
    ];
    assert_eq!(pick(devices), Some(DeviceChoice { device_index: 2, queue_family_index: 0 }));
}

#[test]
fn first_of_equal_ranks_wins() {
    let devices = vec![
        device(DeviceType::Other),
        device(DeviceType::DiscreteGpu),
        device(DeviceType::DiscreteGpu),
    ];
    assert_eq!(pick(devices), Some(DeviceChoice { device_index: 1, queue_family_index: 0 }));
}

#[test]
fn unsuitable_devices_are_passed_over() {
    let mut old = device(DeviceType::DiscreteGpu);
    old.api_version = ApiVersion { major: 1, minor: 0, patch: 400 };
    let mut bare = device(DeviceType::DiscreteGpu);
    bare.supported_extensions = DeviceExtensions::empty();
    let mut headless = device(DeviceType::DiscreteGpu);
    headless.queue_families = vec![family(QueueFlags::GRAPHICS, false)];
    let last = device(DeviceType::Unrecognized);
    assert_eq!(
        pick(vec![old, bare, headless, last]),
        Some(DeviceChoice { device_index: 3, queue_family_index: 0 })
    );
}

#[test]
fn missing_feature_rules_a_device_out() {
    let wanted = DeviceFeatures { geometry_shader: true, ..DeviceFeatures::empty() };
    let plain = device(DeviceType::DiscreteGpu);
    let mut rich = device(DeviceType::Cpu);
    rich.supported_features = DeviceFeatures {
        geometry_shader: true,
        tessellation_shader: true,
        ..DeviceFeatures::empty()
    };
    let choice = select_device(&vec![plain, rich], &swapchain_extensions(), &wanted);
    assert_eq!(choice, Some(DeviceChoice { device_index: 1, queue_family_index: 0 }));
}

#[test]
fn maintenance2_makes_an_old_device_usable() {
    let mut old = device(DeviceType::DiscreteGpu);
    old.api_version = ApiVersion::major_minor(1, 0);
    old.supported_extensions.khr_maintenance2 = true;
    assert_eq!(pick(vec![old]), Some(DeviceChoice { device_index: 0, queue_family_index: 0 }));
}

#[test]
fn versions_compare_major_first() {
    let mut future = device(DeviceType::DiscreteGpu);
    future.api_version = ApiVersion { major: 2, minor: 0, patch: 0 };
    assert!(pick(vec![future]).is_some());
    let mut early = device(DeviceType::DiscreteGpu);
    early.api_version = ApiVersion { major: 0, minor: 9, patch: 9 };
    assert!(pick(vec![early]).is_none());
    let mut exact = device(DeviceType::DiscreteGpu);
    exact.api_version = ApiVersion { major: 1, minor: 1, patch: 0 };
    assert!(pick(vec![exact]).is_some());
}

#[test]
fn first_usable_queue_family_is_taken() {
    let mut several = device(DeviceType::DiscreteGpu);
    several.queue_families = vec![
        family(QueueFlags::SPARSE_BINDING, true),
        family(QueueFlags::GRAPHICS | QueueFlags::COMPUTE, false),
        family(QueueFlags::TRANSFER, true),
        family(QueueFlags::GRAPHICS, true),
    ];
    assert_eq!(several.first_usable_family(), Some(2));
    assert_eq!(
        pick(vec![several]),
        Some(DeviceChoice { device_index: 0, queue_family_index: 2 })
    );
}

#[test]
fn each_capability_alone_is_enough() {
    assert!(family(QueueFlags::GRAPHICS, true).is_usable());
    assert!(family(QueueFlags::COMPUTE, true).is_usable());
    assert!(family(QueueFlags::TRANSFER, true).is_usable());
    assert!(!family(QueueFlags::SPARSE_BINDING | QueueFlags::PROTECTED, true).is_usable());
    assert!(!family(QueueFlags::empty(), true).is_usable());
    assert!(!family(QueueFlags::GRAPHICS, false).is_usable());
}

#[test]
fn only_wanted_families_are_worth_asking() {
    assert!(executes_wanted(QueueFlags::GRAPHICS | QueueFlags::PROTECTED));
    assert!(executes_wanted(QueueFlags::COMPUTE));
    assert!(executes_wanted(QueueFlags::TRANSFER));
    assert!(!executes_wanted(QueueFlags::SPARSE_BINDING));
    assert!(!executes_wanted(QueueFlags::empty()));
}

#[test]
fn unasked_families_make_no_difference() {
    let flags = [QueueFlags::PROTECTED, QueueFlags::COMPUTE, QueueFlags::GRAPHICS];
    let mut all = device(DeviceType::Cpu);
    all.queue_families = flags.iter().map(|flags| family(*flags, true)).collect();
    let mut known = device(DeviceType::Cpu);
    known.queue_families = vec![
        family(flags[0], false),
        family(flags[1], true),
        family(flags[2], false),
    ];
    assert_eq!(all.first_usable_family(), Some(1));
    assert_eq!(known.first_usable_family(), Some(1));
}

#[test]
fn no_usable_family_is_reported() {
    let mut none = device(DeviceType::DiscreteGpu);
    none.queue_families = vec![family(QueueFlags::VIDEO_DECODE, true)];
    assert_eq!(none.first_usable_family(), None);
}

#[test]
fn required_extensions_add_to_the_bindless_ones() {
    let bindless = DeviceExtensions {
        ext_descriptor_indexing: true,
        ..DeviceExtensions::empty()
    };
    let expected = DeviceExtensions {
        ext_descriptor_indexing: true,
        khr_swapchain: true,
        khr_storage_buffer_storage_class: true,
        ..DeviceExtensions::empty()
    };
    assert_eq!(required_extensions(&bindless), expected);
}

#[test]
fn instance_extensions_add_debug_utils() {
    let surface = InstanceExtensions { khr_surface: true, ..InstanceExtensions::empty() };
    let expected = InstanceExtensions {
        khr_surface: true,
        ext_debug_utils: true,
        ..InstanceExtensions::empty()
    };
    assert_eq!(required_instance_extensions(&surface), expected);
}

#[test]
fn instance_has_the_validation_layer() {
    let surface = InstanceExtensions { khr_surface: true, ..InstanceExtensions::empty() };
    let plan = plan_instance(&surface);
    assert!(plan.enumerate_portability);
    assert_eq!(plan.enabled_layers, vec!["VK_LAYER_KHRONOS_validation"]);
    assert_eq!(plan.enabled_extensions, required_instance_extensions(&surface));
}

#[test]
fn new_devices_enable_only_what_is_required() {
    let mut modern = device(DeviceType::DiscreteGpu);
    modern.supported_extensions.khr_maintenance2 = true;
    modern.supported_extensions.khr_image_format_list = true;
    assert_eq!(modern.extensions_to_enable(&swapchain_extensions()), swapchain_extensions());
}

#[test]
fn older_devices_enable_what_later_versions_have() {
    let mut old = device(DeviceType::DiscreteGpu);
    old.api_version = ApiVersion { major: 1, minor: 0, patch: 3 };
    old.supported_extensions.khr_maintenance2 = true;
    old.supported_extensions.khr_image_format_list = true;
    let expected = DeviceExtensions {
        khr_maintenance2: true,
        khr_image_format_list: true,
        ..swapchain_extensions()
    };
    let enabled = old.extensions_to_enable(&swapchain_extensions());
    assert_eq!(enabled, expected);
    assert!(old.supported_extensions.contains(&enabled));
}

#[test]
fn unsupported_format_list_is_not_enabled() {
    let mut middle = device(DeviceType::DiscreteGpu);
    middle.api_version = ApiVersion::major_minor(1, 1);
    assert_eq!(middle.extensions_to_enable(&swapchain_extensions()), swapchain_extensions());
    middle.supported_extensions.khr_image_format_list = true;
    let expected = DeviceExtensions { khr_image_format_list: true, ..swapchain_extensions() };
    assert_eq!(middle.extensions_to_enable(&swapchain_extensions()), expected);
}

#[test]
fn plan_joins_choice_and_extensions() {
    let mut old = device(DeviceType::DiscreteGpu);
    old.api_version = ApiVersion::major_minor(1, 0);
    old.supported_extensions.khr_maintenance2 = true;
    let devices = vec![device(DeviceType::Cpu), old];
    let plan = plan_device(&devices, &DeviceExtensions::empty(), &DeviceFeatures::empty()).unwrap();
    assert_eq!(plan.device_index, 1);
    assert_eq!(plan.queue_family_index, 0);
    assert_eq!(
        plan.enabled_extensions,
        DeviceExtensions { khr_maintenance2: true, ..swapchain_extensions() }
    );
    assert!(devices[1].supported_extensions.contains(&plan.enabled_extensions));
    assert_eq!(plan.enabled_features, DeviceFeatures::empty());
}

#[test]
fn plan_fails_without_a_candidate() {
    let mut bare = device(DeviceType::DiscreteGpu);
    bare.supported_extensions.khr_swapchain = false;
    let plan = plan_device(&vec![bare], &DeviceExtensions::empty(), &DeviceFeatures::empty());
    assert!(plan.is_none());
}

#[test]
fn candidate_family_needs_the_extensions() {
    let some = device(DeviceType::Other);
    let none = DeviceFeatures::empty();
    assert_eq!(some.candidate_family(&swapchain_extensions(), &none), Some(0));
    let more = DeviceExtensions { khr_maintenance3: true, ..swapchain_extensions() };
    assert_eq!(some.candidate_family(&more, &none), None);
}

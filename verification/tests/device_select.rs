use vulkan_fractal::device_select::{
    device_kind_rank, family_presents_graphics, first_graphics_queue_family,
    first_presenting_queue_family, has_suitable_device, select_physical_device, DeviceCandidate,
    DeviceKind, QueueFamilyInfo,
};

fn family(graphics: bool, surface_support: Option<bool>) -> QueueFamilyInfo {
    QueueFamilyInfo { graphics, surface_support }
}

fn presenting() -> QueueFamilyInfo {
    family(true, Some(true))
}

fn device(kind: DeviceKind, supports_extensions: bool, families: Vec<QueueFamilyInfo>) -> DeviceCandidate {
    DeviceCandidate { supports_extensions, kind, queue_families: families }
}

#[test]
fn kind_ranks_follow_preference_order() {
    assert_eq!(device_kind_rank(DeviceKind::DiscreteGpu), 0);
    assert_eq!(device_kind_rank(DeviceKind::IntegratedGpu), 1);
    assert_eq!(device_kind_rank(DeviceKind::VirtualGpu), 2);
    assert_eq!(device_kind_rank(DeviceKind::Cpu), 3);
    assert_eq!(device_kind_rank(DeviceKind::Other), 4);
}

#[test]
fn first_graphics_family_is_the_least_index() {
    let fams = vec![family(false, Some(true)), family(true, Some(false)), family(true, Some(true))];
    assert_eq!(first_graphics_queue_family(&fams), Some(1));
}

#[test]
fn no_graphics_family_gives_none() {
    let fams = vec![family(false, Some(true)), family(false, None)];
    assert_eq!(first_graphics_queue_family(&fams), None);
    assert_eq!(first_graphics_queue_family(&[]), None);
}

#[test]
fn presenting_needs_graphics_and_confirmed_support() {
    assert!(family_presents_graphics(&presenting()));
    assert!(!family_presents_graphics(&family(true, Some(false))));
    assert!(!family_presents_graphics(&family(true, None)));
    assert!(!family_presents_graphics(&family(false, Some(true))));
}

#[test]
fn first_presenting_family_skips_failed_queries() {
    let fams = vec![family(false, Some(true)), family(true, None), family(true, Some(false)), presenting(), presenting()];
    assert_eq!(first_presenting_queue_family(&fams), Some(3));
    assert_eq!(first_presenting_queue_family(&fams[..3]), None);
}

#[test]
fn discrete_gpu_wins_over_earlier_integrated() {
    let cs = vec![
        device(DeviceKind::IntegratedGpu, true, vec![presenting()]),
        device(DeviceKind::DiscreteGpu, true, vec![family(false, None), presenting()]),
    ];
    assert!(has_suitable_device(&cs));
    assert_eq!(select_physical_device(&cs), (1, 1));
}

#[test]
fn first_of_equal_kinds_wins() {
    let cs = vec![
        device(DeviceKind::Cpu, true, vec![presenting()]),
        device(DeviceKind::IntegratedGpu, true, vec![family(true, Some(false)), presenting()]),
        device(DeviceKind::IntegratedGpu, true, vec![presenting()]),
    ];
    assert_eq!(select_physical_device(&cs), (1, 1));
}

#[test]
fn devices_without_extensions_or_families_are_passed_over() {
    let cs = vec![
        device(DeviceKind::DiscreteGpu, false, vec![presenting()]),
        device(DeviceKind::DiscreteGpu, true, vec![family(true, Some(false))]),
        device(DeviceKind::DiscreteGpu, true, vec![]),
        device(DeviceKind::Other, true, vec![family(false, Some(true)), presenting()]),
    ];
    assert!(has_suitable_device(&cs));
    assert_eq!(select_physical_device(&cs), (3, 1));
}

#[test]
fn virtual_gpu_beats_cpu_and_other() {
    let cs = vec![
        device(DeviceKind::Other, true, vec![presenting()]),
        device(DeviceKind::Cpu, true, vec![presenting()]),
        device(DeviceKind::VirtualGpu, true, vec![presenting()]),
    ];
    assert_eq!(select_physical_device(&cs), (2, 0));
}

#[test]
fn no_suitable_device_is_reported() {
    let cs = vec![
        device(DeviceKind::DiscreteGpu, false, vec![presenting()]),
        device(DeviceKind::IntegratedGpu, true, vec![family(true, None)]),
    ];
    assert!(!has_suitable_device(&cs));
    assert!(!has_suitable_device(&[]));
}

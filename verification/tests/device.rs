use navier_stokes_vulkan::device::{
    choose_device, first_usable_family, rank, DeviceCandidate, DeviceKind,
};

fn dev(kind: DeviceKind, families: &[bool]) -> DeviceCandidate {
    DeviceCandidate { kind, usable_families: families.to_vec() }
}

#[test]
fn ranks() {
    assert_eq!(rank(DeviceKind::DiscreteGpu), 0);
    assert_eq!(rank(DeviceKind::IntegratedGpu), 1);
    assert_eq!(rank(DeviceKind::VirtualGpu), 2);
    assert_eq!(rank(DeviceKind::Cpu), 3);
    assert_eq!(rank(DeviceKind::Other), 4);
    assert_eq!(rank(DeviceKind::Unknown), 5);
}

#[test]
fn first_family() {
    assert_eq!(first_usable_family(&vec![false, true, true]), Some(1));
    assert_eq!(first_usable_family(&vec![false, false]), None);
    assert_eq!(first_usable_family(&vec![]), None);
}

#[test]
fn prefers_discrete_gpu() {
    let ds = vec![
        dev(DeviceKind::Cpu, &[true]),
        dev(DeviceKind::IntegratedGpu, &[false, true]),
        dev(DeviceKind::DiscreteGpu, &[false, false, true]),
    ];
    assert_eq!(choose_device(&ds), Some((2, 2)));
}

#[test]
fn skips_devices_without_compute() {
    let ds = vec![
        dev(DeviceKind::DiscreteGpu, &[false, false]),
        dev(DeviceKind::VirtualGpu, &[true]),
        dev(DeviceKind::Cpu, &[true]),
    ];
    assert_eq!(choose_device(&ds), Some((1, 0)));
}

#[test]
fn first_of_equal_rank_wins() {
    let ds = vec![
        dev(DeviceKind::IntegratedGpu, &[true]),
        dev(DeviceKind::IntegratedGpu, &[true]),
    ];
    assert_eq!(choose_device(&ds), Some((0, 0)));
}

#[test]
fn no_device() {
    assert_eq!(choose_device(&vec![]), None);
    let ds = vec![dev(DeviceKind::DiscreteGpu, &[false]), dev(DeviceKind::Other, &[])];
    assert_eq!(choose_device(&ds), None);
}

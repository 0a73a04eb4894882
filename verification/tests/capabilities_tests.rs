use magma_virtio::capabilities::{build_capabilities, CAPSET_VERSION, MAX_PHYSICAL_DEVICES};

#[test]
fn no_devices_gives_empty_table() {
    let infos: Vec<u32> = Vec::new();
    let caps = build_capabilities(&infos, 0u32);
    assert_eq!(caps.capset_version, 1);
    assert_eq!(caps.capset_version, CAPSET_VERSION);
    assert_eq!(caps.num_physical_devices, 0);
    assert_eq!(caps.devices, vec![0u32; 8]);
}

#[test]
fn few_devices_fill_leading_slots() {
    let infos = vec![11u32, 22, 33];
    let caps = build_capabilities(&infos, 0u32);
    assert_eq!(caps.num_physical_devices, 3);
    assert_eq!(caps.devices, vec![11, 22, 33, 0, 0, 0, 0, 0]);
}

#[test]
fn devices_beyond_table_are_not_advertised() {
    let infos: Vec<u32> = (1..=10).collect();
    let caps = build_capabilities(&infos, 99u32);
    assert_eq!(caps.num_physical_devices, 8);
    assert_eq!(caps.devices.len(), MAX_PHYSICAL_DEVICES);
    assert_eq!(caps.devices, vec![1, 2, 3, 4, 5, 6, 7, 8]);
}

#[test]
fn exactly_full_table() {
    let infos: Vec<(u16, u16)> = (0..8).map(|i| (i, i * 2)).collect();
    let caps = build_capabilities(&infos, (0xffff, 0xffff));
    assert_eq!(caps.num_physical_devices, 8);
    assert_eq!(caps.devices, infos);
}

use vfio_pci::vfio::{
    check_region_index, container_check, require_container_set, require_viable, PciDevice,
    VfioDeviceInfo, VfioDeviceInfoFlag, VfioError, VfioGroupStatus, VfioGroupStatusFlag, VfioIoctl,
    VfioRegionInfo, VfioRegionInfoFlag, VFIO_GROUP_STATUS_SIZE,
};

#[test]
fn test_status_decode() {
    let input: &[u8] = &[0x10, 0x00, 0x00, 0x00, 0x03, 0x00, 0x00, 0x00];

    let (remaining, status) = VfioGroupStatus::from_bytes(input).expect("Decoding should succeed");
    assert!(remaining == 0);
    assert_eq!(status.argsz, 0x10);
    assert!(status.get_flag(VfioGroupStatusFlag::Viable) == true);
    assert!(status.get_flag(VfioGroupStatusFlag::ContainerSet) == true);
}

#[test]
fn test_status_decode_single_flag() {
    let input: &[u8] = &[0x08, 0x00, 0x00, 0x00, 0x01, 0x00, 0x00, 0x00];

    let (remaining, status) = VfioGroupStatus::from_bytes(input).expect("Decoding should succeed");
    assert!(remaining == 0);
    assert_eq!(status.argsz, 0x08);
    assert!(status.get_flag(VfioGroupStatusFlag::Viable) == true);
    assert!(status.get_flag(VfioGroupStatusFlag::ContainerSet) == false);
}

#[test]
fn test_status_decode_no_flags() {
    let input: &[u8] = &[0x04, 0x00, 0x00, 0x00, 0x00, 0x00, 0x00, 0x00];

    let (remaining, status) = VfioGroupStatus::from_bytes(input).expect("Decoding should succeed");
    assert!(remaining == 0);
    assert_eq!(status.argsz, 0x04);
    assert!(status.get_flag(VfioGroupStatusFlag::Viable) == false);
    assert!(status.get_flag(VfioGroupStatusFlag::ContainerSet) == false);
}

#[test]
fn test_size() {
    let input: &[u8] = &[0xBE, 0x00, 0x00, 0x00, 0x00, 0x00, 0x00, 0x00];
    let (remaining, status) = VfioGroupStatus::from_bytes(input).expect("Decoding should succeed");
    assert!(remaining == 0);
    let b = status.to_bytes();
    assert!(b.len() == VFIO_GROUP_STATUS_SIZE);
}

#[test]
fn group_status_roundtrip_and_flags_list() {
    let input: &[u8] = &[0x08, 0, 0, 0, 0x03, 0, 0, 0];
    let (_, status) = VfioGroupStatus::from_bytes(input).unwrap();
    assert_eq!(status.to_bytes(), input.to_vec());
    assert_eq!(
        status.get_flags(),
        vec![VfioGroupStatusFlag::ContainerSet, VfioGroupStatusFlag::Viable]
    );
    assert!(require_viable(&status).is_ok());
    assert!(require_container_set(&status).is_ok());
}

#[test]
fn group_status_checks_fail_without_flags() {
    let status = VfioGroupStatus { argsz: 8, flags: 0 };
    assert_eq!(require_viable(&status), Err(VfioError::NotViable));
    assert_eq!(require_container_set(&status), Err(VfioError::SetContainerFailed));
}

#[test]
fn container_check_decides() {
    assert!(container_check(0, 1).is_ok());
    assert_eq!(container_check(1, 1), Err(VfioError::ApiMismatch));
    assert_eq!(container_check(0, 0), Err(VfioError::Unsupported));
}

#[test]
fn region_index_limit() {
    assert!(check_region_index(0).is_ok());
    assert!(check_region_index(7).is_ok());
    assert!(check_region_index(8).is_ok());
    assert_eq!(check_region_index(9), Err(VfioError::BadRegionIndex));
}

#[test]
fn ioctl_request_numbers() {
    assert_eq!(VfioIoctl::GetApiVersion.request(), 15204);
    assert_eq!(VfioIoctl::CheckExtension.request(), 15205);
    assert_eq!(VfioIoctl::SetIommu.request(), 15206);
    assert_eq!(VfioIoctl::GroupGetStatus.request(), 15207);
    assert_eq!(VfioIoctl::GroupSetContainer.request(), 15208);
    assert_eq!(VfioIoctl::GroupGetDeviceFd.request(), 15210);
    assert_eq!(VfioIoctl::DeviceGetInfo.request(), 15211);
    assert_eq!(VfioIoctl::DeviceGetRegionInfo.request(), 15212);
}

#[test]
fn device_info_codec() {
    let mut probe = VfioDeviceInfo::default();
    assert_eq!(probe.argsz, 24);
    probe.flags = 0b1_0000_0011;
    probe.num_regions = 9;
    probe.num_irqs = 5;
    let bytes = probe.to_bytes();
    assert_eq!(bytes.len(), 24);
    let (remaining, back) = VfioDeviceInfo::from_bytes(&bytes).unwrap();
    assert_eq!(remaining, 0);
    assert_eq!(back, probe);
    assert!(back.get_flag(VfioDeviceInfoFlag::Reset));
    assert!(back.get_flag(VfioDeviceInfoFlag::Pci));
    assert!(back.get_flag(VfioDeviceInfoFlag::Cdx));
    assert!(!back.get_flag(VfioDeviceInfoFlag::Caps));
    assert_eq!(back.get_num_regions(), 9);
    assert_eq!(back.get_num_irqs(), 5);
    assert_eq!(
        back.get_flags(),
        vec![VfioDeviceInfoFlag::Reset, VfioDeviceInfoFlag::Pci, VfioDeviceInfoFlag::Cdx]
    );
}

#[test]
fn region_info_codec() {
    let probe = VfioRegionInfo::probe(7);
    assert_eq!(probe.argsz, 32);
    assert_eq!(probe.index, 7);
    let mut filled = probe;
    filled.flags = 0b0111;
    filled.size = 0x4000;
    filled.offset = 0x7000_0000_0000_0000;
    let bytes = filled.to_bytes();
    assert_eq!(bytes.len(), 32);
    let (remaining, back) = VfioRegionInfo::from_bytes(&bytes).unwrap();
    assert_eq!(remaining, 0);
    assert_eq!(back, filled);
    assert!(back.get_flag(VfioRegionInfoFlag::Read));
    assert!(back.get_flag(VfioRegionInfoFlag::Write));
    assert!(back.get_flag(VfioRegionInfoFlag::Mmap));
    assert!(!back.get_flag(VfioRegionInfoFlag::Caps));
    assert_eq!(back.get_size(), 0x4000);
    assert_eq!(back.get_offset(), 0x7000_0000_0000_0000);
}

#[test]
fn short_header_decode_roundtrip() {
    // An NVMe controller header: class 01, subclass 08, prog-if 02.
    let mut bytes = [0u8; 16];
    bytes[0] = 0x86;
    bytes[1] = 0x80;  // vendor
    bytes[2] = 0x34;
    bytes[3] = 0x12;  // device
    bytes[4] = 0x06;  // command: memory space + bus master
    bytes[6] = 0x10;  // status: capabilities list
    bytes[8] = 0x01;  // revision
    bytes[9] = 0x02;  // prog-if
    bytes[10] = 0x08;  // subclass
    bytes[11] = 0x01;  // class
    let d = PciDevice::from_bytes(&bytes).unwrap();
    assert_eq!(d.vendor_id, 0x8086);
    assert_eq!(d.device_id, 0x1234);
    assert!(d.command.memory_space);
    assert!(d.command.bus_master);
    assert!(d.status.capabilities_list);
    assert_eq!(d.class_code, 0x01);
    assert_eq!(d.subclass, 0x08);
    assert_eq!(d.prog_if, 0x02);
    assert_eq!(d.to_bytes(), bytes.to_vec());
}

use vfio_pci::codec::CodecError;
use vfio_pci::pci_class::{
    DisplayControllerSubtype, DisplayControllerVGACompatibleControllerProgIf,
    MassStorageControllerNonVolatileMemoryControllerProgIf, MassStorageControllerSubtype,
    PciDeviceClass,
};
use vfio_pci::pci_config::{PciDevice, PciLayout, PCI_CONFIG_SIZE};
use vfio_pci::ids::PciIds;

fn nvme_config() -> Vec<u8> {
    let mut bytes = vec![0u8; PCI_CONFIG_SIZE];
    bytes[0] = 0x86;
    bytes[1] = 0x80; // vendor 0x8086
    bytes[2] = 0x53;
    bytes[3] = 0xf1; // device 0xf153
    bytes[4] = 0x06; // command: memory space + bus master
    bytes[6] = 0x10; // status: capabilities list
    bytes[8] = 0x03; // revision
    bytes[9] = 0x02; // prog-if: NVM Express
    bytes[10] = 0x08; // subclass: non-volatile memory controller
    bytes[11] = 0x01; // class: mass storage
    bytes[12] = 0x10; // cache line size
    bytes[14] = 0x00; // header type 0
    bytes[16] = 0x04; // BAR0 low bits
    bytes[0x2c] = 0x86;
    bytes[0x2d] = 0x80; // subsystem vendor
    bytes[0x3c] = 0x0b; // interrupt line
    bytes[0x3d] = 0x01; // interrupt pin
    bytes
}

#[test]
fn decode_type0_and_reencode() {
    let bytes = nvme_config();
    let d = PciDevice::from_bytes(&bytes).unwrap();
    assert_eq!(d.vendor_id, 0x8086);
    assert_eq!(d.device_id, 0xf153);
    assert!(d.command.memory_space);
    assert!(d.command.bus_master);
    assert!(!d.command.io_space);
    assert!(d.status.capabilities_list);
    assert_eq!(d.revision_id, 0x03);
    assert_eq!(d.class_code, 0x01);
    assert_eq!(d.subclass, 0x08);
    assert_eq!(d.prog_if, 0x02);
    assert!(!d.header_type.multifunction);
    assert_eq!(d.header_type.layout, 0);
    assert_eq!(
        d.pci_id,
        PciDeviceClass::MassStorageController(
            MassStorageControllerSubtype::NonVolatileMemoryController(
                MassStorageControllerNonVolatileMemoryControllerProgIf::NVMExpress
            )
        )
    );
    match &d.layout {
        PciLayout::Type0(l) => {
            assert_eq!(l.bar0, 0x04);
            assert_eq!(l.subsystem_vendor_id, 0x8086);
            assert_eq!(l.interrupt_line, 0x0b);
            assert_eq!(l.interrupt_pin, 0x01);
        }
        PciLayout::Type1(_) => panic!("wrong layout"),
    }
    // The bit-codec round trip: re-encoding restores the input bytes.
    assert_eq!(d.to_bytes(), bytes);
}

#[test]
fn decode_type1_and_reencode() {
    let mut bytes = vec![0u8; PCI_CONFIG_SIZE];
    bytes[11] = 0x06; // class: bridge
    bytes[10] = 0x04; // subclass: PCI bridge
    bytes[9] = 0x01; // prog-if: subtractive decode
    bytes[14] = 0x81; // multifunction, layout 1
    bytes[0x18] = 1; // primary bus
    bytes[0x19] = 2; // secondary bus
    bytes[0x1a] = 5; // subordinate bus
    bytes[0x3e] = 0x1b; // bridge control
    let d = PciDevice::from_bytes(&bytes).unwrap();
    assert!(d.header_type.multifunction);
    assert_eq!(d.header_type.layout, 1);
    match &d.layout {
        PciLayout::Type1(l) => {
            assert_eq!(l.primary_bus_number, 1);
            assert_eq!(l.secondary_bus_number, 2);
            assert_eq!(l.subordinate_bus_number, 5);
            assert_eq!(l.bridge_control, 0x1b);
        }
        PciLayout::Type0(_) => panic!("wrong layout"),
    }
    assert_eq!(d.to_bytes(), bytes);
}

#[test]
fn unsupported_header_layout() {
    let mut bytes = vec![0u8; PCI_CONFIG_SIZE];
    bytes[14] = 0x02; // CardBus layout
    assert_eq!(PciDevice::from_bytes(&bytes), Err(CodecError::UnsupportedHeaderType));
}

#[test]
fn truncated_and_trailing_input() {
    let bytes = vec![0u8; 16];
    assert_eq!(PciDevice::from_bytes(&bytes), Err(CodecError::Truncated));
    let bytes = vec![0u8; 65];
    assert_eq!(PciDevice::from_bytes(&bytes), Err(CodecError::TrailingBytes));
}

#[test]
fn unknown_subclass_discriminant() {
    let mut bytes = vec![0u8; PCI_CONFIG_SIZE];
    bytes[11] = 0x01; // mass storage
    bytes[10] = 0x42; // no such subclass
    assert_eq!(PciDevice::from_bytes(&bytes), Err(CodecError::UnknownDiscriminant));
}

#[test]
fn unknown_class_reads_as_unassigned() {
    let mut bytes = vec![0u8; PCI_CONFIG_SIZE];
    bytes[11] = 0xab; // unmapped class code
    let d = PciDevice::from_bytes(&bytes).unwrap();
    assert_eq!(d.pci_id, PciDeviceClass::UnassignedClass);
    assert_eq!(PciDeviceClass::default(), PciDeviceClass::UnassignedClass);
}

#[test]
fn class_tree_decode() {
    assert_eq!(
        PciDeviceClass::decode(0x03, 0x00, 0x01),
        Ok(PciDeviceClass::DisplayController(
            DisplayControllerSubtype::VGACompatibleController(
                DisplayControllerVGACompatibleControllerProgIf::_8514Controller
            )
        ))
    );
    assert_eq!(
        PciDeviceClass::decode(0x03, 0x00, 0x55),
        Err(CodecError::UnknownDiscriminant)
    );
    assert_eq!(PciDeviceClass::decode(0xff, 0, 0), Ok(PciDeviceClass::UnassignedClass));
    let v = PciDeviceClass::decode(0x03, 0x02, 0x00).unwrap();
    assert_eq!(v, PciDeviceClass::DisplayController(DisplayControllerSubtype::_3DController));
    assert_eq!(v.id(), 0x03);
}

#[test]
fn whole_file_must_be_consumed() {
    let input = "01de  Oxide Computer Company\nC 03  Display controller\n";
    let ids = PciIds::parse(input).unwrap();
    assert_eq!(ids.vendors.len(), 1);
    assert_eq!(ids.classes.len(), 1);

    // A line that matches no rule leaves residue, and the parse fails.
    let bad = "01de  Oxide Computer Company\nnot a record\n";
    assert!(PciIds::parse(bad).is_err());
}

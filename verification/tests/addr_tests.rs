use vfio_pci::addr::{PciAddress, PciAddressError};

#[test]
fn parse_without_domain() {
    let a = PciAddress::new("02:00.0").unwrap();
    assert_eq!(a.domain, 0x0000);
    assert_eq!(a.bus, 0x02);
    assert_eq!(a.device, 0x00);
    assert_eq!(a.function, 0);
    assert_eq!(a.to_text(), "0000:02:00.0");
}

#[test]
fn parse_with_domain() {
    let a = PciAddress::new("00a1:3f:1e.7").unwrap();
    assert_eq!(a.domain, 0x00a1);
    assert_eq!(a.bus, 0x3f);
    assert_eq!(a.device, 0x1e);
    assert_eq!(a.function, 7);
    assert_eq!(a.to_text(), "00a1:3f:1e.7");
}

#[test]
fn format_parses_back() {
    let a = PciAddress::new("1:2.3").unwrap();
    assert_eq!(a.to_text(), "0000:01:02.3");
    let b = PciAddress::new(a.to_text().as_str()).unwrap();
    assert_eq!(a, b);
}

#[test]
fn rejects_device_32() {
    assert_eq!(PciAddress::new("00:20.0"), Err(PciAddressError::OutOfRange));
    assert!(PciAddress::new("00:1f.0").is_ok());
}

#[test]
fn rejects_function_8() {
    assert_eq!(PciAddress::new("00:00.8"), Err(PciAddressError::OutOfRange));
    assert!(PciAddress::new("00:00.7").is_ok());
}

#[test]
fn rejects_empty_tokens() {
    assert_eq!(PciAddress::new(":00.0"), Err(PciAddressError::BadHex));
    assert_eq!(PciAddress::new("00:.0"), Err(PciAddressError::BadHex));
    assert_eq!(PciAddress::new("00:00."), Err(PciAddressError::BadHex));
    assert_eq!(PciAddress::new(""), Err(PciAddressError::BadFormat));
}

#[test]
fn rejects_three_digit_tokens() {
    assert_eq!(PciAddress::new("002:00.0"), Err(PciAddressError::BadHex));
    assert_eq!(PciAddress::new("00:000.0"), Err(PciAddressError::BadHex));
    assert_eq!(PciAddress::new("0000:02:00.000"), Err(PciAddressError::BadHex));
}

#[test]
fn rejects_bad_shapes() {
    assert_eq!(PciAddress::new("00:00"), Err(PciAddressError::BadFormat));
    assert_eq!(PciAddress::new("0:0:0:0.0"), Err(PciAddressError::BadFormat));
    assert_eq!(PciAddress::new("00:00.0.0"), Err(PciAddressError::BadFormat));
    assert_eq!(PciAddress::new("zz:00.0"), Err(PciAddressError::BadHex));
}

use blog_os::pci::{busScan_r, config_address, device_present, DeviceReading};

#[test]
fn configuration_addresses() {
    assert_eq!(config_address(0, 0, 0, 0), 0x8000_0000);
    assert_eq!(config_address(0, 3, 0, 8), 0x8000_1808);
    assert_eq!(config_address(0, 30, 0, 0x3C), 0x8000_F03C);
    assert_eq!(config_address(1, 2, 3, 4), 0x8001_1304);
    assert_eq!(config_address(0xFFFF_FFFF, 0xFFFF_FFFF, 0xFFFF_FFFF, 0xFFFF_FFFF), 0x80FF_FFFC);
    assert_eq!(config_address(0x100, 0x20, 0x08, 0x03), 0x8000_0000);
}

#[test]
fn empty_slots() {
    assert!(!device_present(0));
    assert!(!device_present(0xFFFF_FFFF));
    assert!(device_present(1));
    assert!(device_present(0x100E_8086));
    assert!(device_present(0xFFFF_FFFE));
}

#[test]
fn report_on_an_empty_scan() {
    assert_eq!(busScan_r(&Vec::new()), "");
    let absent = vec![
        DeviceReading { bus: 0, device: 0, id: 0, class: 5, irq: 5 },
        DeviceReading { bus: 0, device: 1, id: 0xFFFF_FFFF, class: 5, irq: 5 },
    ];
    assert_eq!(busScan_r(&absent), "");
}

#[test]
fn report_on_devices() {
    let devices = vec![
        DeviceReading { bus: 0, device: 0, id: 0x1237_8086, class: 0x0600_0002, irq: 0 },
        DeviceReading { bus: 0, device: 1, id: 0, class: 0, irq: 0 },
        DeviceReading { bus: 0, device: 3, id: 0x100E_8086, class: 0x0200_0003, irq: 0x0000_010B },
        DeviceReading { bus: 0, device: 30, id: 0xFFFF_FFFF, class: 0, irq: 0 },
    ];
    assert_eq!(
        busScan_r(&devices),
        "PCI device at bus: 0, device: 0\n\
         devID=0x123780, vendorID=0x86, class code=0x6, sub code=0x0, irq=0x0\n\
         PCI device at bus: 0, device: 3\n\
         devID=0x100E80, vendorID=0x86, class code=0x2, sub code=0x0, irq=0xB\n"
    );
}

#[test]
fn report_on_one_device_with_wide_fields() {
    let devices =
        vec![DeviceReading { bus: 255, device: 31, id: 0xABCD_EF12, class: 0xFFAB_CDEF, irq: 0xFFFF_FFFF }];
    assert_eq!(
        busScan_r(&devices),
        "PCI device at bus: 255, device: 31\n\
         devID=0xABCDEF, vendorID=0x12, class code=0xFF, sub code=0xAB, irq=0xF\n"
    );
}

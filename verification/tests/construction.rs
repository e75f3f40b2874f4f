use probe_rs::bmp::{open_from_ports, select_port_index, BMPDevice, BMPProbe, SerialPortRecord};
use probe_rs::probe::{
    DebugProbeError, DebugProbeSelector, DebugProbeType, ProbeCreationError, ProbeState,
    WireProtocol,
};
use probe_rs::registry::open_probe;
use serialport::{SerialPort, TTYPort};

fn selector(vendor_id: u16, product_id: u16) -> DebugProbeSelector {
    DebugProbeSelector {
        vendor_id,
        product_id,
        serial_number: None,
    }
}

fn port(name: &str, usb: Option<(u16, u16)>) -> SerialPortRecord {
    SerialPortRecord {
        name: name.to_owned(),
        usb,
    }
}

#[test]
fn no_ports_means_not_found() {
    let ports: Vec<SerialPortRecord> = Vec::new();
    let r = open_from_ports(&ports, &selector(0x1d50, 0xABCD));
    assert!(matches!(r, Err(ProbeCreationError::NotFound)));
}

#[test]
fn no_matching_port_means_not_found() {
    let ports = vec![
        port("/dev/ttyACM0", Some((0x0483, 0x374B))),
        port("/dev/ttyS0", None),
    ];
    let r = open_from_ports(&ports, &selector(0x1d50, 0xABCD));
    assert!(matches!(r, Err(ProbeCreationError::NotFound)));
}

#[test]
fn selection_takes_the_first_match() {
    let ports = vec![
        port("/dev/ttyS0", None),
        port("/dev/ttyACM0", Some((0x1d50, 0xABCD))),
        port("/dev/ttyACM1", Some((0x1d50, 0xABCD))),
    ];
    let sel = selector(0x1d50, 0xABCD);
    assert_eq!(select_port_index(&ports, &sel), Some(1));
}

#[test]
fn selection_matches_product_id_too() {
    let ports = vec![port("/dev/ttyACM0", Some((0x1d50, 0x6018)))];
    assert_eq!(select_port_index(&ports, &selector(0x1d50, 0xABCD)), None);
}

#[test]
fn matching_port_that_cannot_open_means_not_found() {
    let ports = vec![port("/nonexistent/port", Some((0x1d50, 0xABCD)))];
    let r = open_from_ports(&ports, &selector(0x1d50, 0xABCD));
    assert!(matches!(r, Err(ProbeCreationError::NotFound)));
}

#[test]
fn construction_from_simulated_port_uses_family_defaults() {
    let (master, slave) = TTYPort::pair().expect("pseudo-terminal pair");
    let name = slave.name().expect("slave path");
    drop(slave);
    let ports = vec![port(&name, Some((0x1d50, 0xABCD)))];
    let device = open_from_ports(&ports, &selector(0x1d50, 0xABCD))
        .expect("a matching, openable port should construct");
    let probe = BMPProbe::new_from_device(device);
    assert_eq!(probe.current_state(), ProbeState::Connected);
    assert_eq!(probe.protocol(), WireProtocol::Swd);
    assert_eq!(probe.speed(), 1000);
    assert_eq!(probe.get_name(), "Black Magic Probe");
    assert!(probe.has_arm_interface());
    drop(master);
}

#[test]
fn probe_from_adopted_port_uses_family_defaults() {
    let (master, slave) = TTYPort::pair().expect("pseudo-terminal pair");
    let probe = BMPProbe::new_from_device(BMPDevice::new(slave));
    assert_eq!(probe.current_state(), ProbeState::Connected);
    assert_eq!(probe.speed(), 1000);
    drop(master);
}

#[test]
fn registry_reports_not_found_for_absent_selector() {
    let r = open_probe(DebugProbeType::BMP, &selector(0xFFFE, 0xFFFE));
    match r {
        Err(DebugProbeError::ProbeCouldNotBeCreated(ProbeCreationError::NotFound)) => {}
        Err(other) => panic!("unexpected error {:?}", other),
        Ok(_) => panic!("no such device should exist"),
    }
}

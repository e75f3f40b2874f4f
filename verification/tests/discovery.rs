use probe_rs::bmp::{bmp_identities, get_bmp_info, list_bmp_devices, UsbCandidate, BMP_VID};
use probe_rs::probe::DebugProbeType;
use probe_rs::registry::list_all_probes;

fn candidate(
    vendor_id: u16,
    product_id: u16,
    product: Option<&str>,
    serial_number: Option<&str>,
) -> UsbCandidate {
    UsbCandidate {
        vendor_id,
        product_id,
        product: product.map(|s| s.to_owned()),
        serial_number: serial_number.map(|s| s.to_owned()),
    }
}

#[test]
fn vendor_filter_rejects_foreign_vid() {
    let c = candidate(0x1234, 0x6018, Some("Black Magic Probe v1.8.0"), None);
    assert!(get_bmp_info(&c).is_none());
}

#[test]
fn content_filter_rejects_wrong_product_string() {
    let c = candidate(0x1d50, 0x6018, Some("Some Other Probe"), None);
    assert!(get_bmp_info(&c).is_none());
}

#[test]
fn missing_product_string_yields_no_identity() {
    let c = candidate(0x1d50, 0x6018, None, Some("SN1"));
    assert!(get_bmp_info(&c).is_none());
}

#[test]
fn accepted_candidate_yields_exact_identity() {
    let c = candidate(0x1d50, 0x6018, Some("Black Magic Probe v1.8.0"), Some("E2C0A4"));
    let info = get_bmp_info(&c).expect("candidate should be accepted");
    assert_eq!(info.identifier, "Black Magic Probe v1.8.0");
    assert_eq!(info.vendor_id, 0x1d50);
    assert_eq!(info.product_id, 0x6018);
    assert_eq!(info.serial_number.as_deref(), Some("E2C0A4"));
    assert_eq!(info.probe_type, DebugProbeType::BMP);
}

#[test]
fn bare_prefix_as_product_string_is_accepted() {
    let c = candidate(0x1d50, 0x6018, Some("Black Magic Probe"), None);
    let info = get_bmp_info(&c).expect("the bare prefix should be accepted");
    assert_eq!(info.identifier, "Black Magic Probe");
    assert_eq!(info.serial_number, None);
}

#[test]
fn scan_of_zero_candidates_is_empty() {
    let devices: Vec<UsbCandidate> = Vec::new();
    let infos = bmp_identities(&devices);
    assert!(infos.is_empty());
}

#[test]
fn scan_keeps_accepted_candidates_in_order() {
    let devices = vec![
        candidate(0x1d50, 0x6018, Some("Black Magic Probe v1.8.0"), Some("A")),
        candidate(0x0483, 0x3748, Some("ST-Link"), None),
        candidate(0x1d50, 0x6017, Some("Bootloader"), None),
        candidate(0x1d50, 0x6018, None, None),
        candidate(0x1d50, 0x6018, Some("Black Magic Probe v1.10"), Some("B")),
    ];
    let infos = bmp_identities(&devices);
    assert_eq!(infos.len(), 2);
    assert_eq!(infos[0].identifier, "Black Magic Probe v1.8.0");
    assert_eq!(infos[0].serial_number.as_deref(), Some("A"));
    assert_eq!(infos[1].identifier, "Black Magic Probe v1.10");
    assert_eq!(infos[1].serial_number.as_deref(), Some("B"));
}

#[test]
fn live_scan_never_fails_and_emits_only_family_devices() {
    for info in list_bmp_devices() {
        assert_eq!(info.vendor_id, BMP_VID);
        assert!(info.identifier.starts_with("Black Magic Probe"));
        assert_eq!(info.probe_type, DebugProbeType::BMP);
    }
}

#[test]
fn live_registry_scan_aggregates_families() {
    for info in list_all_probes() {
        assert_eq!(info.vendor_id, BMP_VID);
        assert_eq!(info.probe_type, DebugProbeType::BMP);
    }
}

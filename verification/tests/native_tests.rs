use wtga::diagnostics::{
    apply_native_ata_data, apply_native_nvme_data, apply_nvme_identify, is_nvme_diag,
    next_native_probe, nvme_reliability_entries, DiskDiagnostics, NativeProbe, RelValue,
};
use wtga::nvme::{parse_identify_controller, parse_smart_data, parse_u128_le_at, NVMeHandle};
use wtga::smart::{
    build_sat_cdb, parse_ata_smart_tables, sat_attempts, sat_pattern_cdb_length,
    send_sat_smart_command, DiskHandle, SatPattern, SmartAttribute, SmartData, SmartMethodRead,
    SmartReadMethod,
};

fn health_log() -> Vec<u8> {
    let mut b = vec![0u8; 512];
    b[0] = 1;
    b[1] = 0x3B; // 315 K
    b[2] = 0x01;
    b[3] = 100;
    b[4] = 10;
    b[5] = 3;
    b[32] = 0x10; // data units read 0x0210
    b[33] = 0x02;
    b[112] = 42; // power cycles
    b[128] = 0xE8; // power-on hours 1000
    b[129] = 0x03;
    b[200] = 0x3B; // sensor 1: 315 K
    b[201] = 0x01;
    b
}

#[test]
fn nvme_health_log_fields() {
    assert!(matches!(parse_smart_data(&[0u8; 100]), Err(e) if e == "NVMe SMART buffer too small"));
    let d = parse_smart_data(&health_log()).unwrap();
    assert_eq!(d.critical_warning, 1);
    assert_eq!(d.temperature, 42);
    assert_eq!(d.available_spare, 100);
    assert_eq!(d.percentage_used, 3);
    assert_eq!(d.data_units_read, 0x0210);
    assert_eq!(d.power_cycles, 42);
    assert_eq!(d.power_on_hours, 1000);
    assert_eq!(d.temp_sensors[0], 42);
    assert_eq!(d.temp_sensors[1], -1000);
    assert_eq!(parse_u128_le_at(&[1, 0, 0], 0), 0);
}

#[test]
fn nvme_identify_fields() {
    let mut data = vec![b' '; 100];
    data[4..10].copy_from_slice(b"SN1234");
    data[24..33].copy_from_slice(b"Fast NVMe");
    data[64..68].copy_from_slice(b"1.0A");
    let id = parse_identify_controller(&data);
    assert_eq!(id.serial_number, "SN1234");
    assert_eq!(id.model, "Fast NVMe");
    assert_eq!(id.firmware_version, "1.0A");
    assert_eq!(parse_identify_controller(&data[..50]).model, "");
}

#[test]
fn nvme_queries_take_first_with_data() {
    let h = NVMeHandle {
        physical_drive_id: 1,
        smart_log_queries: vec![Err("adapter query refused".to_string()), Ok(vec![0u8; 512]), Ok(health_log())],
        identify_queries: Vec::new(),
    };
    assert_eq!(h.read_smart_data().unwrap().power_on_hours, 1000);
    let none = NVMeHandle {
        physical_drive_id: 1,
        smart_log_queries: vec![Err("first".to_string()), Ok(vec![0u8; 512]), Err("last".to_string())],
        identify_queries: Vec::new(),
    };
    assert!(matches!(none.read_smart_data(), Err(e) if e == "last"));
    let empty = NVMeHandle { physical_drive_id: 1, smart_log_queries: Vec::new(), identify_queries: Vec::new() };
    assert!(matches!(empty.read_smart_data(), Err(e) if e == "Failed to query NVMe SMART log page"));
}

fn attribute_table() -> Vec<u8> {
    let mut t = vec![0u8; 362];
    // slot 0: attribute 9 (power-on hours), raw 5000
    t[2] = 9;
    t[5] = 99;
    t[6] = 98;
    t[7] = 0x88;
    t[8] = 0x13;
    // slot 2: attribute 194 (temperature), raw 0x1F0 -> low byte 0xF0
    t[2 + 24] = 194;
    t[2 + 24 + 3] = 60;
    t[2 + 24 + 4] = 50;
    t[2 + 24 + 5] = 0xF0;
    t[2 + 24 + 6] = 0x01;
    t
}

#[test]
fn ata_tables_are_parsed() {
    assert!(matches!(
        parse_ata_smart_tables(&[0u8; 10], None, SmartReadMethod::AtaPassThrough),
        Err(e) if e == "SMART attribute table payload too small"
    ));
    assert!(matches!(
        parse_ata_smart_tables(&[0u8; 362], None, SmartReadMethod::AtaPassThrough),
        Err(e) if e == "SMART attributes are empty"
    ));
    let mut thr = vec![0u8; 362];
    thr[2] = 194;
    thr[3] = 45;
    let d = parse_ata_smart_tables(&attribute_table(), Some(thr.as_slice()), SmartReadMethod::PhysicalDrive).unwrap();
    assert!(d.thresholds_available);
    assert_eq!(d.attributes.len(), 2);
    assert_eq!(d.attributes[0].id, 9);
    assert_eq!(d.attributes[0].raw, 5000);
    assert_eq!(d.attributes[0].threshold, 0);
    assert_eq!(d.attributes[1].threshold, 45);
    assert_eq!(d.power_on_hours, Some(5000));
    assert_eq!(d.power_cycle_count, None);
    assert_eq!(d.temperature, Some(0xF0));
    assert_eq!(d.get_attribute(194).map(|a| a.current), Some(60));
    let short_thr = parse_ata_smart_tables(&attribute_table(), Some(&[1u8; 4][..]), SmartReadMethod::SatBridge).unwrap();
    assert!(!short_thr.thresholds_available);
}

#[test]
fn smart_methods_in_order() {
    let failed = SmartMethodRead { attributes: Err("no".to_string()), thresholds: None };
    let empty = SmartMethodRead { attributes: Ok(vec![0u8; 362]), thresholds: None };
    let good = SmartMethodRead { attributes: Ok(attribute_table()), thresholds: None };
    let h = DiskHandle { physical_drive_id: 0, ata_pass_through: failed, physical_drive: empty, sat_bridge: good };
    let d = h.read_smart_data().unwrap();
    assert_eq!(d.read_method, SmartReadMethod::SatBridge);
    let none = DiskHandle {
        physical_drive_id: 0,
        ata_pass_through: SmartMethodRead { attributes: Err("a".to_string()), thresholds: None },
        physical_drive: SmartMethodRead { attributes: Err("b".to_string()), thresholds: None },
        sat_bridge: SmartMethodRead { attributes: Ok(vec![1u8; 3]), thresholds: None },
    };
    assert!(matches!(none.read_smart_data(), Err(e) if e == "Failed to read SMART data using any method"));
}

#[test]
fn sat_bridge_commands() {
    let attempts = sat_attempts();
    assert_eq!(attempts.len(), 10);
    assert_eq!(attempts[0], SatPattern::Ata12(0x2E));
    assert_eq!(attempts[9], SatPattern::Cypress);
    assert_eq!(sat_pattern_cdb_length(SatPattern::Ata12(0)), 12);
    assert_eq!(sat_pattern_cdb_length(SatPattern::Ata16(0)), 16);
    assert_eq!(sat_pattern_cdb_length(SatPattern::Logitec), 10);
    let mut cdb = [0xFFu8; 16];
    build_sat_cdb(&mut cdb, 0xD0, SatPattern::Ata12(0x2E));
    assert_eq!(&cdb[..10], &[0xA1, 0x08, 0x2E, 0xD0, 0x01, 0x01, 0x4F, 0xC2, 0xA0, 0xB0]);
    assert_eq!(cdb[10], 0xFF);
    assert_eq!(
        send_sat_smart_command(vec![Err("e1".to_string()), Ok(vec![0, 0]), Ok(vec![0, 7])]).unwrap(),
        vec![0, 7]
    );
    assert!(matches!(send_sat_smart_command(vec![Ok(vec![0, 0])]), Err(e) if e == "SAT returned empty buffer"));
    assert!(matches!(send_sat_smart_command(vec![]), Err(e) if e == "SAT SMART command failed"));
    assert!(matches!(
        send_sat_smart_command(vec![Ok(vec![0]), Err("bridge stalled".to_string())]),
        Err(e) if e == "bridge stalled"
    ));
}

fn diag() -> DiskDiagnostics {
    DiskDiagnostics {
        id: "disk0".to_string(),
        disk_number: 0,
        model: String::new(),
        friendly_name: String::new(),
        serial_number: "0000".to_string(),
        firmware_version: String::new(),
        interface_type: String::new(),
        transport_type: String::new(),
        is_usb: false,
        bus_type: "SATA".to_string(),
        unique_id: String::new(),
        media_type: "HDD".to_string(),
        size_bytes: 0,
        is_system: false,
        health_status: String::new(),
        smart_supported: false,
        smart_enabled: false,
        smart_data_source: String::new(),
        ata_smart_available: false,
        reliability_available: false,
        power_on_hours: Some(1),
        power_cycle_count: None,
        read_errors_total: None,
        write_errors_total: None,
        host_reads_total: None,
        host_writes_total: None,
        smart_attributes: Vec::new(),
        notes: Vec::new(),
        pnp_device_id: String::new(),
        usb_vendor_id: String::new(),
    }
}

#[test]
fn native_nvme_log_fills_the_disk() {
    let mut d = diag();
    let log = parse_smart_data(&health_log()).unwrap();
    let hints = apply_native_nvme_data(&mut d, &log);
    assert_eq!(d.transport_type, "NVMe");
    assert_eq!(d.media_type, "SSD");
    assert_eq!(d.power_on_hours, Some(1));
    assert_eq!(d.power_cycle_count, Some(42));
    assert_eq!(d.host_reads_total, Some(0x0210));
    assert_eq!(d.host_writes_total, Some(0));
    assert_eq!(d.smart_data_source, "NVME_NATIVE_IOCTL");
    assert!(d.smart_supported && d.smart_enabled);
    assert_eq!(hints.temperature_c, Some(42));
    assert_eq!(hints.percentage_used, 3);
    assert!(is_nvme_diag(&d));

    let entries = nvme_reliability_entries(&log);
    assert_eq!(entries.len(), 17);
    assert_eq!(entries[0].0, "NvmeIoctl.CriticalWarning");
    assert!(matches!(entries[9].1, RelValue::Unsigned(42)));
    let mut big = log.clone();
    big.power_on_hours = u128::MAX;
    let entries = nvme_reliability_entries(&big);
    assert!(matches!(&entries[10].1, RelValue::Text(t) if t == "340282366920938463463374607431768211455"));
}

#[test]
fn identify_fills_missing_texts() {
    let mut d = diag();
    d.firmware_version = "KEEP".to_string();
    let id = wtga::nvme::NVMeIdentifyInfo {
        model: "Fast NVMe".to_string(),
        serial_number: "SN1".to_string(),
        firmware_version: "2.0".to_string(),
    };
    apply_nvme_identify(&mut d, &id);
    assert_eq!(d.model, "Fast NVMe");
    assert_eq!(d.serial_number, "SN1");
    assert_eq!(d.firmware_version, "KEEP");
}

#[test]
fn native_ata_data_replaces_shorter_lists() {
    let mut d = diag();
    let attrs = vec![
        SmartAttribute { id: 9, current: 99, worst: 98, threshold: 0, raw: 77 },
        SmartAttribute { id: 12, current: 100, worst: 100, threshold: 0, raw: 5 },
    ];
    let data = SmartData::from_attributes(&attrs, SmartReadMethod::SatBridge, false);
    assert_eq!(data.power_cycle_count, Some(5));
    apply_native_ata_data(&mut d, &data);
    assert_eq!(d.power_on_hours, Some(1));
    assert_eq!(d.power_cycle_count, Some(5));
    assert_eq!(d.smart_attributes.len(), 2);
    assert_eq!(d.smart_attributes[0].name, "Power-On Hours");
    assert_eq!(d.smart_attributes[0].threshold, None);
    assert_eq!(d.smart_attributes[0].raw_hex, "0x00000000004D");
    assert_eq!(d.smart_data_source, "ATA_NATIVE_SAT");
    assert_eq!(d.notes.len(), 2);
    assert!(d.ata_smart_available);
}

#[test]
fn native_readers_order() {
    assert_eq!(next_native_probe(true, None, None), NativeProbe::Nvme);
    assert_eq!(next_native_probe(true, Some(true), None), NativeProbe::Finished);
    assert_eq!(next_native_probe(true, Some(false), None), NativeProbe::Ata);
    assert_eq!(next_native_probe(false, None, None), NativeProbe::Ata);
    assert_eq!(next_native_probe(false, None, Some(false)), NativeProbe::Nvme);
    assert_eq!(next_native_probe(false, None, Some(true)), NativeProbe::Finished);
    assert_eq!(next_native_probe(false, Some(false), Some(false)), NativeProbe::Finished);
}

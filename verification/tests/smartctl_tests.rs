use wtga::diagnostics::{
    apply_smartctl_payload, enrich_with_smartctl_payload, is_useful_smartctl_payload,
    dedup_scan_entries, note_smartctl_missing, payload_matches_diag, pick_matching_payload, pick_smartctl_payload,
    smartctl_attempts, smartctl_entry_matches_disk, smartctl_fallback_attempts, DiskDiagnostics,
    SmartctlAttrItem, SmartctlPayload, SmartctlScanEntry,
};

fn disk(n: u32) -> DiskDiagnostics {
    DiskDiagnostics {
        id: format!("disk{}", n),
        disk_number: n,
        model: String::new(),
        friendly_name: String::new(),
        serial_number: String::new(),
        firmware_version: String::new(),
        interface_type: String::new(),
        transport_type: String::new(),
        is_usb: false,
        bus_type: String::new(),
        unique_id: String::new(),
        media_type: "Unknown".to_string(),
        size_bytes: 0,
        is_system: false,
        health_status: String::new(),
        smart_supported: false,
        smart_enabled: false,
        smart_data_source: String::new(),
        ata_smart_available: false,
        reliability_available: false,
        power_on_hours: None,
        power_cycle_count: None,
        read_errors_total: None,
        write_errors_total: None,
        host_reads_total: None,
        host_writes_total: None,
        smart_attributes: Vec::new(),
        notes: Vec::new(),
        pnp_device_id: String::new(),
        usb_vendor_id: String::new(),
    }
}

fn payload() -> SmartctlPayload {
    SmartctlPayload {
        has_smartctl: true,
        has_model_name: false,
        has_serial_number: false,
        has_ata_table: false,
        has_nvme_log: false,
        has_temperature_current: false,
        has_power_on_hours: false,
        has_ata_smart_attributes: false,
        device_name: None,
        device_type: None,
        protocol: None,
        model_name: None,
        serial_number: None,
        firmware_version: None,
        rotation_rate: None,
        exit_status: None,
        user_capacity: None,
        power_on_hours: None,
        power_cycle_count: None,
        nvme_power_on_hours: None,
        nvme_power_cycles: None,
        nvme_host_reads: None,
        nvme_data_units_read: None,
        nvme_host_writes: None,
        nvme_data_units_written: None,
        nvme_media_errors: None,
        nvme_num_err_log_entries: None,
        smart_enabled: None,
        smart_passed: None,
        ata_table: Vec::new(),
    }
}

fn args(v: &[&str]) -> Vec<String> {
    v.iter().map(|s| s.to_string()).collect()
}

fn entry(name: &str, ty: Option<&str>, info: &str) -> SmartctlScanEntry {
    SmartctlScanEntry { name: name.to_string(), device_type: ty.map(str::to_string), info_name: info.to_string() }
}

#[test]
fn sata_disk_probes_its_own_device_then_scanned_ones() {
    let d = disk(1);
    let scanned = vec![
        entry("/dev/sdb", Some("sat"), "\\\\.\\PhysicalDrive1 [SAT]"),
        entry("/dev/pd1", Some("sat"), ""),
        entry("/dev/sdc", None, "\\\\.\\PhysicalDrive3"),
    ];
    let attempts = smartctl_attempts(&d, &scanned);
    assert_eq!(
        attempts,
        vec![
            args(&["-x", "-j", "/dev/pd1"]),
            args(&["-x", "-j", "-d", "sat", "/dev/pd1"]),
            args(&["-x", "-j", "-d", "scsi", "/dev/pd1"]),
            args(&["-x", "-j", "-d", "sat", "/dev/sdb"]),
        ]
    );
}

#[test]
fn usb_nvme_bridge_probes_bridge_types_once() {
    let mut d = disk(2);
    d.is_usb = true;
    d.transport_type = "NVMe".to_string();
    d.usb_vendor_id = " 152d ".to_string();
    let attempts = smartctl_attempts(&d, &Vec::new());
    let types: Vec<String> = attempts
        .iter()
        .map(|a| if a.len() == 5 { a[3].clone() } else { String::new() })
        .collect();
    assert_eq!(
        types,
        vec![
            "", "sat,auto", "sat", "sat,12", "sat,16", "scsi", "nvme", "sntjmicron", "sntjmicron,0",
            "sntjmicron,1", "sntasmedia", "sntrealtek", "sntrealtek,0", "sntrealtek,1", "usbjmicron",
        ]
    );
    assert!(attempts.iter().all(|a| a.last().unwrap() == "/dev/pd2"));
}

#[test]
fn fallback_probes_every_scanned_device() {
    let scanned = vec![entry("/dev/sda", Some("  "), ""), entry("/dev/sdb", Some("nvme"), "")];
    assert_eq!(
        smartctl_fallback_attempts(&scanned),
        vec![args(&["-x", "-j", "/dev/sda"]), args(&["-x", "-j", "-d", "nvme", "/dev/sdb"])]
    );
}

#[test]
fn scan_entry_names_disk_by_number() {
    assert!(smartctl_entry_matches_disk(&entry("/dev/PD4", None, ""), 4));
    assert!(smartctl_entry_matches_disk(&entry("/dev/sdx", None, "\\\\.\\PhysicalDrive4"), 4));
    assert!(!smartctl_entry_matches_disk(&entry("/dev/sdx", None, "\\\\.\\PhysicalDrive5"), 4));
}

#[test]
fn first_useful_report_is_picked() {
    let mut useless = payload();
    useless.has_smartctl = true;
    let mut useful = payload();
    useful.has_model_name = true;
    let mut not_smartctl = payload();
    not_smartctl.has_smartctl = false;
    not_smartctl.has_model_name = true;
    assert!(!is_useful_smartctl_payload(&useless));
    assert!(is_useful_smartctl_payload(&useful));
    assert!(!is_useful_smartctl_payload(&not_smartctl));
    assert_eq!(pick_smartctl_payload(&vec![None, Some(useless.clone()), Some(useful.clone())]), Some(2));
    assert_eq!(pick_smartctl_payload(&vec![None, Some(useless)]), None);
}

#[test]
fn fallback_report_must_belong_to_disk() {
    let mut d = disk(3);
    d.serial_number = "S3Z9NX0K123456".to_string();
    d.model = "Samsung SSD 860".to_string();
    d.size_bytes = 500_000_000_000;

    let mut other = payload();
    other.has_model_name = true;
    other.model_name = Some("WDC WD10".to_string());
    let mut by_serial = payload();
    by_serial.has_serial_number = true;
    by_serial.serial_number = Some("s3z9-nx0k-123456".to_string());
    assert!(!payload_matches_diag(&other, &d));
    assert!(payload_matches_diag(&by_serial, &d));
    assert_eq!(pick_matching_payload(&vec![Some(other.clone()), Some(by_serial)], &d), Some(1));

    let mut by_name = payload();
    by_name.has_model_name = true;
    by_name.device_name = Some("/DEV/PD3".to_string());
    assert!(payload_matches_diag(&by_name, &d));

    let mut by_size = payload();
    by_size.has_model_name = true;
    by_size.model_name = Some("samsung ssd 860 evo 500gb".to_string());
    by_size.user_capacity = Some(500_107_862_016);
    assert!(payload_matches_diag(&by_size, &d));
    by_size.user_capacity = Some(400_000_000_000);
    assert!(!payload_matches_diag(&by_size, &d));
}

fn row(id: u64, value: u64, raw: u64) -> SmartctlAttrItem {
    SmartctlAttrItem { id: Some(id), name: None, value: Some(value), worst: None, thresh: None, raw: Some(raw) }
}

#[test]
fn ata_report_fills_missing_fields() {
    let mut d = disk(0);
    d.serial_number = "0000000000".to_string();
    d.firmware_version = "FW1".to_string();
    let mut p = payload();
    p.has_ata_table = true;
    p.model_name = Some("ST2000DM008".to_string());
    p.serial_number = Some("ZFL12345".to_string());
    p.firmware_version = Some("0001".to_string());
    p.rotation_rate = Some(7200);
    p.smart_enabled = Some(true);
    p.ata_table = vec![
        row(9, 90, 12345),
        row(12, 99, 321),
        row(194, 64, 36),
        SmartctlAttrItem { id: None, name: Some("x".to_string()), value: None, worst: None, thresh: None, raw: None },
        row(5, 100, 0),
    ];
    let hints = apply_smartctl_payload(&mut d, &p);
    assert!(hints.ata_attributes);
    assert_eq!(hints.attr_temperature, Some(36));
    assert_eq!(d.model, "ST2000DM008");
    assert_eq!(d.serial_number, "ZFL12345");
    assert_eq!(d.firmware_version, "FW1");
    assert_eq!(d.media_type, "HDD");
    assert!(d.smart_supported && d.smart_enabled && d.ata_smart_available);
    assert_eq!(d.smart_data_source, "SMARTCTL_ATA");
    assert_eq!(d.power_on_hours, Some(12345));
    assert_eq!(d.power_cycle_count, Some(321));
    assert_eq!(d.read_errors_total, None);
    assert_eq!(d.smart_attributes.len(), 4);
    assert_eq!(d.smart_attributes[0].id, 9);
    assert_eq!(d.smart_attributes[0].name, "Attribute 9");
    assert_eq!(d.smart_attributes[0].raw_hex, "0x3039");
    assert_eq!(d.smart_attributes[3].current, Some(100));
}

#[test]
fn nvme_report_marks_the_disk_nvme() {
    let mut d = disk(1);
    d.media_type = String::new();
    d.smart_data_source = "NVME_NATIVE".to_string();
    d.power_on_hours = Some(7);
    let mut p = payload();
    p.has_nvme_log = true;
    p.protocol = Some("NVMe".to_string());
    p.nvme_power_on_hours = Some(100);
    p.nvme_data_units_read = Some(55);
    p.nvme_media_errors = Some(0);
    let hints = apply_smartctl_payload(&mut d, &p);
    assert!(!hints.ata_attributes);
    assert_eq!(d.transport_type, "NVMe");
    assert_eq!(d.interface_type, "NVMExpress");
    assert_eq!(d.media_type, "SSD");
    assert_eq!(d.smart_data_source, "NVME_NATIVE+SMARTCTL_NVME");
    assert_eq!(d.power_on_hours, Some(7));
    assert_eq!(d.host_reads_total, Some(55));
    assert_eq!(d.read_errors_total, Some(0));
    assert!(d.smart_supported);
}

#[test]
fn enrichment_and_missing_tool_notes_are_added_once() {
    let mut d = disk(0);
    enrich_with_smartctl_payload(&mut d, &payload());
    enrich_with_smartctl_payload(&mut d, &payload());
    assert_eq!(d.notes, vec!["Extended SMART details were enhanced via smartctl.".to_string()]);
    note_smartctl_missing(&mut d);
    note_smartctl_missing(&mut d);
    assert_eq!(d.notes.len(), 2);
    assert!(d.notes[1].starts_with("smartctl not found"));
}

#[test]
fn scan_entries_kept_once_per_name_and_type() {
    let out = dedup_scan_entries(vec![
        entry("/dev/sda", Some("sat"), "first"),
        entry("/dev/SDA", Some("SAT"), "second"),
        entry("/dev/sda", Some("nvme"), "third"),
        entry("/dev/sdb", None, "fourth"),
    ]);
    let infos: Vec<&str> = out.iter().map(|e| e.info_name.as_str()).collect();
    assert_eq!(infos, vec!["first", "third", "fourth"]);
}

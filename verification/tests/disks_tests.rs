use wtga::disks::{
    build_disk_info, disk_volume, get_disk_info, invalid_disk_identifier, json_bool, json_portion,
    json_u64, mac_disk_listed, mac_target_disk, normalize_disk_id, normalize_drive_letter,
    normalize_protocol, parse_disk, parse_media_type, parse_partition_info, partition_media_type,
    sort_disks_by_index, DiskInfo, JsonScalar, MacDiskFacts, MacPartition, PsDisk, PsPartition,
};
use wtga::error::AppError;

fn ps_disk(number: u64, bus_type: u64, bus_name: Option<&str>) -> PsDisk {
    PsDisk {
        number,
        friendly_name: Some("SanDisk Extreme".to_string()),
        size: 64_000_000_000,
        bus_type,
        media_type: Some("Unspecified".to_string()),
        is_system: false,
        is_boot: false,
        bus_name: bus_name.map(str::to_string),
        volume_letter: Some("E".to_string()),
    }
}

#[test]
fn usb_disk_is_removable() {
    let d = parse_disk(&ps_disk(2, 7, Some("USB")));
    assert_eq!(d.id, "disk2");
    assert_eq!(d.device, "PhysicalDrive2");
    assert_eq!(d.index, "2");
    assert!(d.removable);
    assert_eq!(d.drive_type, "Removable");
    assert_eq!(d.media_type, "Unknown");
    assert_eq!(d.volume, "E");
    assert!(!d.is_system);
}

#[test]
fn internal_disk_shows_its_bus() {
    let mut p = ps_disk(0, 17, Some("NVMe"));
    p.media_type = Some("SSD".to_string());
    p.is_boot = true;
    p.friendly_name = None;
    let d = parse_disk(&p);
    assert!(!d.removable);
    assert_eq!(d.drive_type, "Fixed (NVMe)");
    assert_eq!(d.media_type, "SSD");
    assert_eq!(d.name, "Unknown");
    assert!(d.is_system);
    let other = parse_disk(&ps_disk(1, 3, None));
    assert_eq!(other.drive_type, "Fixed (Other)");
    let sd = parse_disk(&ps_disk(1, 0, Some("sd")));
    assert!(sd.removable);
}

#[test]
fn json_part_of_powershell_output() {
    assert_eq!(json_portion("WARNING: x\n[{\"a\":1}]\n"), Some(("[{\"a\":1}]".to_string(), true)));
    assert_eq!(json_portion("  {\"a\":[1]} "), Some(("[1]}".to_string(), true)));
    assert_eq!(json_portion(" {\"a\":1} "), Some(("{\"a\":1}".to_string(), false)));
    assert_eq!(json_portion("nothing"), None);
}

fn info(id: &str) -> DiskInfo {
    DiskInfo {
        id: id.to_string(),
        name: String::new(),
        size: 0,
        removable: false,
        device: String::new(),
        drive_type: String::new(),
        media_type: String::new(),
        index: id.trim_start_matches("disk").to_string(),
        volume: String::new(),
        is_system: false,
    }
}

#[test]
fn disk_lookup_by_id() {
    let disks = vec![info("disk0"), info("disk3")];
    assert_eq!(get_disk_info(disks.clone(), "disk3").unwrap().index, "3");
    match get_disk_info(disks, "disk9") {
        Err(AppError::DeviceNotFound(m)) => assert_eq!(m, "disk9"),
        _ => panic!("expected DeviceNotFound"),
    }
}

#[test]
fn mac_disk_identifiers() {
    assert_eq!(normalize_disk_id(" /dev/disk4 "), Some("disk4".to_string()));
    assert_eq!(normalize_disk_id("disk12"), Some("disk12".to_string()));
    assert_eq!(normalize_disk_id("disk4s1"), None);
    assert_eq!(normalize_disk_id("disk"), None);
    match invalid_disk_identifier("x") {
        AppError::InvalidParameter(m) => assert_eq!(m, "Invalid disk identifier: x"),
        _ => panic!("expected InvalidParameter"),
    }
}

fn facts() -> MacDiskFacts {
    MacDiskFacts {
        device_identifier: "disk4".to_string(),
        device_node: "/dev/disk4".to_string(),
        media_name: String::new(),
        io_registry_entry_name: "Flash Drive".to_string(),
        bus_protocol: "USB".to_string(),
        virtual_or_physical: "Physical".to_string(),
        parent_whole_disk: String::new(),
        internal: false,
        removable_media_or_external_device: false,
        removable_media: false,
        ejectable: false,
        solid_state: false,
        whole_disk: true,
        total_size: 0,
        size: 32_000_000_000,
        iokit_size: 1,
    }
}

#[test]
fn mac_disk_description() {
    let f = facts();
    assert!(mac_disk_listed(&f));
    assert_eq!(parse_media_type(&f), "USB");
    let d = build_disk_info(&f, "/Volumes/USB".to_string());
    assert_eq!(d.id, "disk4");
    assert_eq!(d.name, "Flash Drive");
    assert_eq!(d.size, 32_000_000_000);
    assert!(d.removable);
    assert_eq!(d.drive_type, "USB");
    assert_eq!(d.index, "4");
    assert_eq!(d.volume, "/Volumes/USB");
    assert!(!d.is_system);

    let mut internal = facts();
    internal.internal = true;
    internal.bus_protocol = String::new();
    internal.media_name = "APPLE SSD AP0512".to_string();
    internal.whole_disk = true;
    let d = build_disk_info(&internal, String::new());
    assert_eq!(d.drive_type, "Fixed");
    assert!(!d.removable);
    assert_eq!(d.media_type, "SSD");
    assert!(d.is_system);

    let mut virt = facts();
    virt.virtual_or_physical = "virtual".to_string();
    assert!(!mac_disk_listed(&virt));
}

#[test]
fn mac_disk_volume_choice() {
    let p = |m: &str, v: &str| MacPartition { mount_point: m.to_string(), volume_name: v.to_string() };
    assert_eq!(disk_volume(&vec![p("", "EFI"), p("/Volumes/WTG", "WTG")]), "/Volumes/WTG");
    assert_eq!(disk_volume(&vec![p("", ""), p("", "Data")]), "Data");
    assert_eq!(disk_volume(&vec![]), "");
}

#[test]
fn mac_target_of_partition() {
    assert_eq!(mac_target_disk("disk4", "disk4", true, "").unwrap(), "disk4");
    assert_eq!(mac_target_disk("disk4s2", "disk4s2", false, "disk4").unwrap(), "disk4");
    match mac_target_disk("disk9s1", "disk9s1", false, "") {
        Err(AppError::DeviceNotFound(m)) => assert_eq!(m, "disk9s1"),
        _ => panic!("expected DeviceNotFound"),
    }
}

#[test]
fn disks_sorted_by_number() {
    let mut odd = info("diskX");
    odd.index = "x".to_string();
    let sorted = sort_disks_by_index(vec![info("disk10"), odd, info("disk2"), info("disk2b")]);
    let ids: Vec<&str> = sorted.iter().map(|d| d.id.as_str()).collect();
    assert_eq!(ids, vec!["disk2", "disk10", "diskX", "disk2b"]);
}

fn text(s: &str) -> JsonScalar {
    JsonScalar::Text(s.to_string())
}

#[test]
fn partition_record_fields() {
    assert_eq!(normalize_drive_letter(&text(" e: ")), "E");
    assert_eq!(normalize_drive_letter(&text("1")), "");
    assert_eq!(json_u64(&text(" 42 ")), 42);
    assert_eq!(json_u64(&JsonScalar::Other), 0);
    assert!(json_bool(&text("TRUE")));
    assert!(!json_bool(&JsonScalar::Unsigned(1)));
    assert_eq!(normalize_protocol(&text("17")), "NVMe");
    assert_eq!(normalize_protocol(&text(" usb ")), "USB");
    assert_eq!(normalize_protocol(&JsonScalar::Unsigned(7)), "Unknown");
    assert_eq!(partition_media_type(&JsonScalar::Unsigned(4)), "SSD");
    assert_eq!(partition_media_type(&text("Unspecified")), "Unknown");
    assert_eq!(partition_media_type(&text(" SCM ")), "SCM");

    let rec = PsPartition {
        drive_letter: text("D"),
        label: text("Data"),
        file_system: text("NTFS"),
        size: JsonScalar::Unsigned(1000),
        free: text("250"),
        disk_number: JsonScalar::Unsigned(1),
        protocol: text("SATA"),
        media_type: text("HDD"),
        has_windows: JsonScalar::Bool(true),
        windows_name: text(" Windows 11 Pro "),
    };
    let p = parse_partition_info(&rec).unwrap();
    assert_eq!(p.drive_letter, "D");
    assert_eq!(p.label, "Data");
    assert_eq!(p.free, 250);
    assert_eq!(p.disk_number, 1);
    assert_eq!(p.protocol, "SATA");
    assert_eq!(p.media_type, "HDD");
    assert!(p.has_windows);
    assert_eq!(p.windows_name, "Windows 11 Pro");
    let mut none = rec.clone();
    none.drive_letter = JsonScalar::Other;
    assert!(parse_partition_info(&none).is_none());
}

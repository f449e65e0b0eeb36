use wtga::diagnostics::{
    add_note_unique, get_smart_attribute_name, hex_text, is_masked_serial, merge_smart_source,
    normalized_eq, parse_smartctl_scan_entries_json, parse_smartctl_scan_entries_text,
    smartctl_scan_entries, JsonScanDevice,
};
use wtga::error::AppError;
use wtga::image::{images_from_dism_output, parse_dism_output, path_has_extension};
use wtga::macos::{
    parent_disk_id_from_partition, parse_partition_id, parse_wimlib_image_info,
    partition_index_from_id, resolve_wim_index, shell_escape_single_quotes,
};
use wtga::models::ImageInfo;

#[test]
fn dism_blocks_are_parsed() {
    let out = "Deployment Image Servicing\nIndex : 1\nName : Windows 11 Home\nDescription : Home edition\nSize : 16,218,120,148 bytes\n\nIndex : 6\nName : Windows 11 Pro\nSize : 9 bytes\n";
    let imgs = parse_dism_output(out);
    assert_eq!(imgs.len(), 2);
    assert_eq!(imgs[0].index, 1);
    assert_eq!(imgs[0].name, "Windows 11 Home");
    assert_eq!(imgs[0].description, "Home edition");
    assert_eq!(imgs[0].size, 16218120148);
    assert_eq!(imgs[1].index, 6);
    assert_eq!(imgs[1].description, "");
}

#[test]
fn dism_output_without_images_is_an_error() {
    match images_from_dism_output("  Error: 87\n") {
        Err(AppError::ImageError(m)) => assert_eq!(m, "No image indexes found. DISM output:\nError: 87"),
        _ => panic!("expected error"),
    }
}

#[test]
fn extensions_ignore_case() {
    assert!(path_has_extension("D:\\iso\\Win11.ISO", "iso"));
    assert!(!path_has_extension("D:\\iso\\.iso", "iso"));
    assert!(!path_has_extension("D:\\iso.d\\win", "iso"));
}

#[test]
fn wimlib_listing_is_parsed() {
    let raw = "WIM Information:\nIndex:                  1\nName:                   Windows 11 Home\nDescription:            Windows 11 Home\nTotal Bytes:            16,218,120,148\n\nIndex:                  2\nName:\nTotal Bytes:            n/a\nIndex: 0\n";
    let imgs = parse_wimlib_image_info(raw);
    assert_eq!(imgs.len(), 2);
    assert_eq!(imgs[0].name, "Windows 11 Home");
    assert_eq!(imgs[0].size, 16218120148);
    assert_eq!(imgs[1].index, 2);
    assert_eq!(imgs[1].name, "Image 2");
    assert_eq!(imgs[1].size, 0);
}

fn info(index: u32) -> ImageInfo {
    ImageInfo { index, name: format!("Image {}", index), description: String::new(), size: 0 }
}

#[test]
fn wim_index_choice() {
    let infos = vec![info(3), info(5)];
    assert_eq!(resolve_wim_index(&infos, "0", "/x.wim").unwrap(), "3");
    assert_eq!(resolve_wim_index(&infos, " 5 ", "/x.wim").unwrap(), "5");
    match resolve_wim_index(&infos, "4", "/x.wim") {
        Err(AppError::InvalidParameter(m)) => assert_eq!(m, "WIM index 4 not found in image"),
        _ => panic!("expected error"),
    }
    match resolve_wim_index(&infos, "x", "/x.wim") {
        Err(AppError::InvalidParameter(m)) => assert_eq!(m, "Invalid WIM index: x"),
        _ => panic!("expected error"),
    }
    match resolve_wim_index(&vec![], "1", "/x.wim") {
        Err(AppError::ImageError(m)) => assert_eq!(m, "No image index found in /x.wim"),
        _ => panic!("expected error"),
    }
}

#[test]
fn partition_identifiers() {
    assert_eq!(parse_partition_id("/dev/disk4s2").as_deref(), Some("disk4s2"));
    assert_eq!(parse_partition_id("disk4"), None);
    assert_eq!(parent_disk_id_from_partition("disk4s2").as_deref(), Some("disk4"));
    assert_eq!(partition_index_from_id("disk4s12"), 12);
}

#[test]
fn single_quote_escaping() {
    assert_eq!(shell_escape_single_quotes("it's"), "it'\"'\"'s");
    assert_eq!(shell_escape_single_quotes("plain"), "plain");
}

#[test]
fn smart_sources_merge_once() {
    assert_eq!(merge_smart_source("", "ATA"), "ATA");
    assert_eq!(merge_smart_source("None", "ATA"), "ATA");
    assert_eq!(merge_smart_source("ATA", "smartctl"), "ATA+smartctl");
    assert_eq!(merge_smart_source("ATA+smartctl", "SMARTCTL"), "ATA+smartctl");
    let once = merge_smart_source("NVMe", "smartctl");
    assert_eq!(merge_smart_source(&once, "smartctl"), once);
}

#[test]
fn notes_are_not_repeated() {
    let mut notes = vec!["a".to_string()];
    add_note_unique(&mut notes, "b");
    add_note_unique(&mut notes, "a");
    add_note_unique(&mut notes, "b");
    assert_eq!(notes, vec!["a".to_string(), "b".to_string()]);
}

#[test]
fn serial_and_name_comparisons() {
    assert!(is_masked_serial("00000000"));
    assert!(is_masked_serial("ab"));
    assert!(!is_masked_serial("S4EWNX0R123456"));
    assert!(normalized_eq("Samsung SSD-970", "samsung ssd 970"));
    assert!(!normalized_eq("", ""));
    assert_eq!(hex_text(255, 4), "0x00FF");
    assert_eq!(get_smart_attribute_name(9), "Power-On Hours");
    assert_eq!(get_smart_attribute_name(253), "Attribute 253");
}

#[test]
fn smartctl_text_scan_is_parsed() {
    let out = "/dev/sda -d sat # /dev/sda [SAT], ATA device\n# comment\n/dev/nvme0 -d nvme # /dev/nvme0, NVMe device\nbogus line\n/dev/sdb\n";
    let es = parse_smartctl_scan_entries_text(out);
    assert_eq!(es.len(), 3);
    assert_eq!(es[0].name, "/dev/sda");
    assert_eq!(es[0].device_type.as_deref(), Some("sat"));
    assert_eq!(es[0].info_name, "/dev/sda [SAT], ATA device");
    assert_eq!(es[1].device_type.as_deref(), Some("nvme"));
    assert_eq!(es[2].name, "/dev/sdb");
    assert_eq!(es[2].device_type, None);
    assert_eq!(es[2].info_name, "");
}

#[test]
fn smartctl_json_scan_and_merge() {
    let devs = vec![
        JsonScanDevice { name: Some(" /dev/sda ".to_string()), info_name: Some("/dev/sda [SAT]".to_string()), device_type: Some(" ".to_string()) },
        JsonScanDevice { name: Some("".to_string()), info_name: None, device_type: None },
        JsonScanDevice { name: Some("/dev/SDA".to_string()), info_name: None, device_type: None },
    ];
    let parsed = parse_smartctl_scan_entries_json(&devs);
    assert_eq!(parsed.len(), 2);
    assert_eq!(parsed[0].name, "/dev/sda");
    assert_eq!(parsed[0].device_type, None);
    let merged = smartctl_scan_entries(vec![parsed, vec![]]).unwrap();
    assert_eq!(merged.len(), 1);
    assert!(smartctl_scan_entries(vec![vec![], vec![]]).is_none());
}

#[test]
fn partition_json_after_last_marker() {
    let out = "noise __WTGA_JSON__{\"a\":1}\nmore __WTGA_JSON__ [{\"DriveLetter\":\"E\"}] ";
    assert_eq!(wtga::disks::partition_json(out), Some("[{\"DriveLetter\":\"E\"}]".to_string()));
}

#[test]
fn partition_json_without_marker_starts_at_bracket() {
    assert_eq!(wtga::disks::partition_json("WARNING x\n[1,2]"), Some("[1,2]".to_string()));
    assert_eq!(wtga::disks::partition_json("text {\"k\":2}"), Some("{\"k\":2}".to_string()));
    assert_eq!(wtga::disks::partition_json("plain"), Some("plain".to_string()));
}

#[test]
fn partition_json_empty_or_null() {
    assert_eq!(wtga::disks::partition_json("   "), None);
    assert_eq!(wtga::disks::partition_json("__WTGA_JSON__ NULL"), None);
    assert_eq!(wtga::disks::partition_json("__WTGA_JSON__"), None);
}

#[test]
fn partition_listing_unsupported_message() {
    assert!(matches!(
        wtga::disks::partition_listing_unsupported(),
        AppError::Unsupported(m) if m == "Partition listing only implemented on Windows"
    ));
}

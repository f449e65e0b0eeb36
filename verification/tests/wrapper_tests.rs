use wtga::disks::normalize_media_type;
use wtga::error::AppError;
use wtga::image::auto_choose_esd_index;
use wtga::nvme::parse_ascii_field;
use wtga::text::{from_chars, to_chars};

#[test]
fn media_type_upper_cases_unicode() {
    assert_eq!(normalize_media_type("nvme ssd"), "SSD");
    assert_eq!(normalize_media_type("rotational"), "HDD");
    assert_eq!(normalize_media_type("4"), "SSD");
    assert_eq!(normalize_media_type("  "), "Unknown");
    assert_eq!(normalize_media_type(" SCM "), "SCM");
    // 'ß' upper-cases to "SS", so "ßd" reads as "SSD".
    assert_eq!(normalize_media_type("ßd"), "SSD");
}

#[test]
fn esd_index_counts_regex_matches() {
    assert_eq!(auto_choose_esd_index("Index : 1\nIndex : 2\n").unwrap(), "4");
    assert_eq!(auto_choose_esd_index("Index : 1\n").unwrap(), "1");
    assert_eq!(auto_choose_esd_index("nothing").unwrap(), "1");
}

#[test]
fn lossy_decoding_replaces_bad_bytes() {
    assert_eq!(parse_ascii_field(b"ok"), "ok");
    assert_eq!(parse_ascii_field(&[0x41, 0x80, 0x42]), "A\u{FFFD}B");
    assert_eq!(parse_ascii_field(b"  Samsung SSD  \0\0"), "Samsung SSD");
    assert_eq!(parse_ascii_field(b"SSD\0 "), "SSD\0");
}

#[test]
fn io_errors_keep_their_text() {
    let e = AppError::io(std::io::Error::new(std::io::ErrorKind::Other, "disk gone"));
    match e {
        AppError::Io(m) => assert_eq!(m, "disk gone"),
        _ => panic!("expected an I/O error"),
    }
}

#[test]
fn characters_are_appended_in_order() {
    assert_eq!(from_chars(&['E', ':', '\\']), "E:\\");
    assert_eq!(to_chars("E:"), vec!['E', ':']);
}

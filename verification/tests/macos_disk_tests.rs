use wtga::error::AppError;
use wtga::macos::{
    apply_windows_image_command, check_target_writable, choose_mounted_partition,
    expected_partition_ids_for_boot_mode, mount_partition_command, normalize_hdiutil_detach_target,
    ntfs_mount_script_command, parse_u64_digits, prepare_target_disk_command, remount_outcome,
    remount_target_ntfs_writable, resolve_disk_id_from_target_disk, resolve_prepared_partitions,
    sort_partitions_by_index, verify_ntfs_format, CheckedVolume, ListedPartition, MountCandidate,
    RemountNext, VolumeProbe,
};
use wtga::models::{BootMode, Disk};

fn part(id: &str, content: &str, name: &str, size: u64) -> ListedPartition {
    ListedPartition {
        id: id.to_string(),
        content: content.to_string(),
        volume_name: name.to_string(),
        mount_point: String::new(),
        size: Some(size),
    }
}

#[test]
fn expected_layout_after_partitioning() {
    let p = expected_partition_ids_for_boot_mode(&BootMode::UefiGpt, "disk4");
    assert_eq!(p.efi_partition_id.as_deref(), Some("disk4s1"));
    assert_eq!(p.system_partition_id, "disk4s2");
    let p = expected_partition_ids_for_boot_mode(&BootMode::NonUefi, "disk4");
    assert!(p.efi_partition_id.is_none());
    assert_eq!(p.system_partition_id, "disk4s1");
}

#[test]
fn prepared_partitions_are_found_by_name_and_content() {
    let parts = vec![part("disk4s2", "Microsoft Basic Data", "WTGA", 100), part("disk4s1", "EFI", "EFI", 200)];
    let p = resolve_prepared_partitions("disk4", &BootMode::UefiGpt, Some(parts)).unwrap();
    assert_eq!(p.efi_partition_id.as_deref(), Some("disk4s1"));
    assert_eq!(p.system_partition_id, "disk4s2");

    let parts = vec![part("disk5s1", "Windows_NTFS", "DATA", 50), part("disk5s2", "", "OTHER", 80)];
    let p = resolve_prepared_partitions("disk5", &BootMode::NonUefi, Some(parts.clone())).unwrap();
    assert_eq!(p.system_partition_id, "disk5s2");
    match resolve_prepared_partitions("disk5", &BootMode::UefiMbr, Some(parts)) {
        Err(AppError::DiskError(m)) => assert_eq!(m, "Cannot resolve EFI partition on /dev/disk5 after repartition"),
        _ => panic!("expected a missing EFI partition"),
    }
    match resolve_prepared_partitions("disk5", &BootMode::UefiGpt, None) {
        Err(AppError::DiskError(m)) => assert_eq!(m, "Cannot find target disk /dev/disk5 after repartition"),
        _ => panic!("expected a missing disk"),
    }
    match resolve_prepared_partitions("disk5", &BootMode::UefiGpt, Some(Vec::new())) {
        Err(AppError::DiskError(m)) => assert_eq!(m, "No partitions found on /dev/disk5 after repartition"),
        _ => panic!("expected no partitions"),
    }
}

#[test]
fn partitions_sorted_by_number() {
    let sorted = sort_partitions_by_index(&vec![
        part("disk2s10", "", "", 0),
        part("weird", "", "", 0),
        part("disk2s2", "", "", 0),
    ]);
    let ids: Vec<&str> = sorted.iter().map(|p| p.id.as_str()).collect();
    assert_eq!(ids, vec!["disk2s2", "disk2s10", "weird"]);
}

fn candidate(id: &str, mount: &str, probe: Option<(&str, bool, bool)>) -> MountCandidate {
    MountCandidate {
        partition_id: id.to_string(),
        mount_point: mount.to_string(),
        probe: probe.map(|(fs, wv, dw)| VolumeProbe { filesystem: fs.to_string(), writable_volume: wv, dir_writable: dw }),
    }
}

#[test]
fn mounted_partition_choice() {
    let cs = vec![
        candidate("disk4s1", "", Some(("msdos", true, true))),
        candidate("disk4s2", "/Volumes/A", Some(("NTFS", false, false))),
        candidate("disk4s3", "/Volumes/B", Some(("exfat", true, true))),
    ];
    assert_eq!(choose_mounted_partition(&cs), Some(2));
    assert_eq!(choose_mounted_partition(&cs[..2].to_vec()), Some(1));
    let plain = vec![candidate("disk4s1", "/Volumes/A", None), candidate("disk4s2", "/Volumes/B", Some(("apfs", true, false)))];
    assert_eq!(choose_mounted_partition(&plain), Some(0));
    assert_eq!(choose_mounted_partition(&vec![candidate("disk4s1", "", None)]), None);
}

fn checked(fs: &str, writable: bool) -> CheckedVolume {
    CheckedVolume {
        partition_id: "disk4s2".to_string(),
        mount_point: "/Volumes/WTG".to_string(),
        filesystem: fs.to_string(),
        writable_volume: writable,
        dir_writable: writable,
    }
}

#[test]
fn writability_check_and_remount() {
    let none = check_target_writable("disk4", None);
    assert!(!none.writable && !none.needs_ntfs_remount);
    assert_eq!(none.reason.as_deref(), Some("No mounted partition found on target disk"));

    let ro = check_target_writable("disk4", Some(checked("NTFS", false)));
    assert_eq!(ro.filesystem, "ntfs");
    assert!(ro.needs_ntfs_remount);
    assert_eq!(ro.reason.as_deref(), Some("Target NTFS volume is mounted read-only"));
    assert!(matches!(remount_target_ntfs_writable(&ro, true), Ok(RemountNext::RunMountScript)));
    match remount_target_ntfs_writable(&ro, false) {
        Err(AppError::DiskError(m)) => assert!(m.starts_with("NTFS target detected but ntfs-3g is missing")),
        _ => panic!("expected missing ntfs-3g"),
    }

    let other = check_target_writable("disk4", Some(checked("", false)));
    assert_eq!(other.reason.as_deref(), Some("Target volume is not writable (filesystem: unknown)"));
    match remount_target_ntfs_writable(&other, true) {
        Err(AppError::DiskError(m)) => assert_eq!(m, "Target volume is not writable (filesystem: unknown)"),
        _ => panic!("expected the check's reason"),
    }

    let ok = check_target_writable("disk4", Some(checked("exfat", true)));
    assert!(ok.writable && ok.reason.is_none());
    assert!(matches!(remount_target_ntfs_writable(&ok, false), Ok(RemountNext::AlreadyWritable)));
    assert!(remount_outcome(ok).is_ok());
    match remount_outcome(ro) {
        Err(AppError::DiskError(m)) => {
            assert_eq!(m, "NTFS remount finished but target volume is still not writable: /Volumes/WTG")
        }
        _ => panic!("expected still read-only"),
    }
}

#[test]
fn macos_shell_commands() {
    assert_eq!(mount_partition_command("disk4s2"), "diskutil mount '/dev/disk4s2' >/dev/null 2>&1 || true");
    assert_eq!(
        apply_windows_image_command("/Volumes/It's/install.wim", "1", "/Volumes/WTGA-disk4s2"),
        "wimlib-imagex apply '/Volumes/It'\"'\"'s/install.wim' '1' '/Volumes/WTGA-disk4s2'"
    );
    assert_eq!(
        prepare_target_disk_command(&BootMode::UefiGpt, "disk4"),
        "diskutil partitionDisk /dev/disk4 GPT FAT32 EFI 512m ExFAT WTGA R"
    );
    assert_eq!(
        prepare_target_disk_command(&BootMode::NonUefi, "disk4"),
        "diskutil partitionDisk /dev/disk4 MBRFormat ExFAT WTGA R"
    );
    assert!(ntfs_mount_script_command("/tmp/m.sh", true).contains("WTGA_NTFS_FORCE=1 /bin/bash '/tmp/m.sh'; EXIT_CODE=$?; /bin/rm -f '/tmp/m.sh'; exit $EXIT_CODE"));
    assert!(verify_ntfs_format("disk4s2", "NTFS").is_ok());
    match verify_ntfs_format("disk4s2", "") {
        Err(AppError::DiskError(m)) => assert_eq!(
            m,
            "System partition disk4s2 format verification failed: expected NTFS but got 'unknown'"
        ),
        _ => panic!("expected a format failure"),
    }
}

fn target(id: &str, device: &str, index: &str) -> Disk {
    Disk {
        id: id.to_string(),
        name: String::new(),
        size: 0,
        removable: true,
        device: device.to_string(),
        index: index.to_string(),
        volume: String::new(),
        drive_type: String::new(),
    }
}

#[test]
fn target_disk_identifier() {
    assert_eq!(resolve_disk_id_from_target_disk(&target("x", "/dev/disk6", "")).unwrap(), "disk6");
    assert_eq!(resolve_disk_id_from_target_disk(&target("disk7", "", "")).unwrap(), "disk7");
    assert_eq!(resolve_disk_id_from_target_disk(&target("", "", " 8 ")).unwrap(), "disk8");
    match resolve_disk_id_from_target_disk(&target("a", "b", "c")) {
        Err(AppError::InvalidParameter(m)) => {
            assert_eq!(m, "Invalid target disk identifier: id='a', device='b', index='c'")
        }
        _ => panic!("expected an invalid identifier"),
    }
}

#[test]
fn hdiutil_and_digits() {
    assert_eq!(normalize_hdiutil_detach_target(" /dev/disk5s1 "), Some("/dev/disk5".to_string()));
    assert_eq!(normalize_hdiutil_detach_target("/dev/diskX"), None);
    assert_eq!(parse_u64_digits("1,024 bytes"), Some(1024));
    assert_eq!(parse_u64_digits("none"), None);
}

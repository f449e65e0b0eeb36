use wtga::admin::{
    clip_detail, escape_applescript, is_user_cancelled_error, map_privileged_error,
    privileged_apple_script, run_privileged_macos, sanitize_admin_detail, MacosAdminSessionState,
};
use wtga::error::AppError;
use wtga::macos_write::{
    alternative_efi_candidate, apply_macos_extra_features, check_bcd_header, choose_efi_partition,
    install_image_candidates, macos_image_source, macos_target_check, macos_write_message,
    macos_write_prerequisites, parse_disk_id, partition_looks_efi, pick_ntfs_mkfs_command,
    repair_boot_uefi_for_target, requires_ntfs_tooling, requires_wimlib, setup_complete_content,
    system_partition_on_disk, uefi_boot_artifacts, unix_extension, MacImageSource,
    PartitionEntry, PartitionProbe,
};
use wtga::models::{BootMode, ExtraFeatures};
use wtga::plugins::{
    brew_tap_present, console_user, find_plugin, install_summary, plugin_installed, plugin_items,
    plugin_specs, remount_result_events, start_macos_ntfs_remount, start_plugin_install,
    user_shell_payload, InstallState, PluginProbes,
};

fn s(v: &str) -> String {
    v.to_string()
}

#[test]
fn applescript_escaping() {
    assert_eq!(escape_applescript("a\nb\\c\"d"), "a; b\\\\c\\\"d");
    let script = privileged_apple_script("echo \"hi\"");
    assert!(script.starts_with("do shell script \"export HOME=/var/root;"));
    assert!(script.ends_with("echo \\\"hi\\\"\" with administrator privileges"));
}

#[test]
fn admin_detail_is_cleaned() {
    let d = "shell-init: error retrieving current directory: x\n\n  real problem  \r\nchdir: error retrieving current directory\n";
    assert_eq!(sanitize_admin_detail(d), "real problem");
    assert_eq!(sanitize_admin_detail("  \n  "), "");
    assert_eq!(sanitize_admin_detail("a\nb"), "a\nb");
}

#[test]
fn clip_adds_ellipsis_only_when_cut() {
    assert_eq!(clip_detail("abcdef", 3), "abc...");
    assert_eq!(clip_detail("abc", 3), "abc");
    assert_eq!(clip_detail("", 0), "");
}

#[test]
fn privileged_errors_are_classified() {
    match map_privileged_error("Volume is in an UNSAFE STATE") {
        AppError::DiskError(m) => assert!(m.ends_with("Detail: Volume is in an UNSAFE STATE")),
        _ => panic!("expected disk error"),
    }
    match map_privileged_error("Error opening '/dev/rdisk4': Operation not permitted") {
        AppError::DiskError(m) => assert!(m.starts_with("Cannot access raw disk device")),
        _ => panic!("expected disk error"),
    }
    match map_privileged_error("boom") {
        AppError::SystemError(m) => assert_eq!(m, "Administrator command failed: boom"),
        _ => panic!("expected system error"),
    }
    assert!(is_user_cancelled_error("execution error: User canceled. (-128)"));
    assert!(!is_user_cancelled_error("permission refused"));
}

#[test]
fn admin_session_remembers_outcomes() {
    let mut st = MacosAdminSessionState::new();
    let r = st.privileged_outcome(false, b"", b" User canceled. ", Some(5));
    assert!(matches!(r, Err(AppError::PermissionDenied)));
    assert_eq!(st.last_error.as_deref(), Some("User canceled."));
    assert!(!st.authorized);
    let ok = st.privileged_outcome(true, b" done \n", b"", Some(1700000000)).unwrap();
    assert_eq!(ok, "done");
    let snap = st.state_snapshot(true);
    assert!(snap.supported && snap.authorized);
    assert_eq!(snap.authorized_at_unix, Some(1700000000));
    assert!(snap.last_error.is_none());
    let off = st.state_snapshot(false);
    assert!(!off.supported && !off.authorized && off.authorized_at_unix.is_none());
}

#[test]
fn admin_failure_uses_stdout_when_stderr_is_blank() {
    let mut st = MacosAdminSessionState::new();
    let r = st.privileged_outcome(false, b"disk busy", b"   ", None);
    match r {
        Err(AppError::SystemError(m)) => assert_eq!(m, "Administrator command failed: disk busy"),
        _ => panic!("expected system error"),
    }
}

#[test]
fn privileged_run_off_macos() {
    match run_privileged_macos("true") {
        Err(AppError::Unsupported(m)) => assert_eq!(m, "Administrator command is only available on macOS"),
        _ => panic!("expected unsupported"),
    }
}

#[test]
fn plugin_list_and_lookup() {
    let specs = plugin_specs();
    let ids: Vec<&str> = specs.iter().map(|p| p.id).collect();
    assert_eq!(ids, vec!["homebrew", "macfuse", "gromgit-homebrew-fuse", "ntfs-3g-mac", "smartmontools", "wimlib"]);
    assert_eq!(find_plugin("wimlib").unwrap().name, "wimlib");
    match find_plugin("zfs") {
        Err(AppError::InvalidParameter(m)) => assert_eq!(m, "Unknown plugin id: zfs"),
        _ => panic!("expected error"),
    }
}

fn probes() -> PluginProbes {
    PluginProbes {
        brew: true,
        macfuse_cask: false,
        macfuse_pkg: false,
        brew_taps: Some(s("homebrew/core\n  gromgit/fuse  \n")),
        ntfs3g_command: false,
        ntfs3g_mac_formula: true,
        ntfs3g_formula: false,
        smartctl_command: false,
        smartmontools_formula: false,
        wimlib_command: true,
        wimlib_formula: false,
    }
}

#[test]
fn plugin_install_detection() {
    let p = probes();
    assert!(plugin_installed("homebrew", &p));
    assert!(!plugin_installed("macfuse", &p));
    assert!(plugin_installed("gromgit-homebrew-fuse", &p));
    assert!(plugin_installed("ntfs-3g-mac", &p));
    assert!(!plugin_installed("smartmontools", &p));
    assert!(plugin_installed("wimlib", &p));
    assert!(!plugin_installed("other", &p));
    let mut no_brew = probes();
    no_brew.brew = false;
    assert!(!plugin_installed("ntfs-3g-mac", &no_brew));
    assert!(!plugin_installed("gromgit-homebrew-fuse", &no_brew));
    let items = plugin_items(&p);
    assert_eq!(items.len(), 6);
    assert_eq!(items[1].name, "macFUSE");
    assert!(!items[1].installed);
    assert!(brew_tap_present("a/b\n c/d \n", "c/d"));
    assert!(!brew_tap_present("a/bc", "a/b"));
}

#[test]
fn one_install_at_a_time() {
    let mut st = InstallState::new();
    assert_eq!(start_plugin_install(&mut st, "wimlib").unwrap(), "Install task started: wimlib");
    assert!(st.running);
    assert_eq!(st.status().plugin_id.as_deref(), Some("wimlib"));
    match start_macos_ntfs_remount(&mut st) {
        Err(AppError::SystemError(m)) => assert_eq!(m, "Another plugin install task is currently running"),
        _ => panic!("expected busy"),
    }
    st.finish();
    assert_eq!(start_macos_ntfs_remount(&mut st).unwrap(), "NTFS remount task started");
    assert_eq!(st.plugin_id.as_deref(), Some("ntfs-remount"));
    let mut idle = InstallState::new();
    assert!(matches!(start_plugin_install(&mut idle, "nope"), Err(AppError::InvalidParameter(_))));
    assert!(!idle.running);
}

#[test]
fn install_summaries() {
    let ok = install_summary("wimlib", &Ok(0));
    assert!(ok.success);
    assert_eq!(ok.summary, "Install completed: wimlib");
    let bad = install_summary("wimlib", &Ok(-1));
    assert!(!bad.success);
    assert_eq!(bad.exit_code, Some(-1));
    assert_eq!(bad.summary, "Install failed (exit code -1): wimlib");
    let err = install_summary("wimlib", &Err(AppError::PermissionDenied));
    assert_eq!(err.summary, "Install failed: Permission denied");
    assert_eq!(err.exit_code, None);
}

#[test]
fn remount_events() {
    let ev = remount_result_events(&Ok(s("a\nb\n")));
    assert_eq!(ev.len(), 3);
    assert_eq!(ev[0].line, "a");
    assert_eq!(ev[1].stream, "stdout");
    assert_eq!(ev[2].phase, "finished");
    assert_eq!(ev[2].exit_code, Some(0));
    let quiet = remount_result_events(&Ok(s("  ")));
    assert_eq!(quiet[0].line, "NTFS remount command completed with no output");
    let failed = remount_result_events(&Err(AppError::SystemError(s("x"))));
    assert_eq!(failed[1].line, "NTFS remount failed: System error: x");
    assert_eq!(failed[1].success, Some(false));
}

#[test]
fn console_user_choice() {
    assert_eq!(console_user(Some(" alice "), Some("bob")).as_deref(), Some("alice"));
    assert_eq!(console_user(Some("root"), Some("bob\n")).as_deref(), Some("bob"));
    assert_eq!(console_user(None, Some("root")), None);
    assert_eq!(
        user_shell_payload("echo 'x'"),
        "export PATH='/opt/homebrew/bin:/opt/homebrew/sbin:/usr/local/bin:/usr/local/sbin:/usr/bin:/bin:/usr/sbin:/sbin'; /bin/sh -lc 'echo '\"'\"'x'\"'\"''"
    );
}

#[test]
fn tool_requirements() {
    assert!(requires_wimlib(true).is_ok());
    assert!(matches!(requires_wimlib(false), Err(AppError::ImageError(_))));
    match requires_ntfs_tooling(true, false, false) {
        Err(AppError::DiskError(m)) => assert!(m.starts_with("Missing dependency: mkntfs")),
        _ => panic!("expected error"),
    }
    assert!(requires_ntfs_tooling(true, false, true).is_ok());
    assert_eq!(pick_ntfs_mkfs_command(false, true), Some("mkfs.ntfs"));
    assert_eq!(pick_ntfs_mkfs_command(false, false), None);
}

#[test]
fn disk_ids_and_extensions() {
    assert_eq!(parse_disk_id(" /dev/disk4 ").as_deref(), Some("disk4"));
    assert_eq!(parse_disk_id("disk4s2"), None);
    assert_eq!(parse_disk_id("disk"), None);
    let e: String = unix_extension("/Volumes/X/Win11.ISO").into_iter().collect();
    assert_eq!(e, "iso");
    let none: String = unix_extension("/tmp/.hidden").into_iter().collect();
    assert_eq!(none, "");
}

#[test]
fn image_source_on_macos() {
    assert!(matches!(macos_image_source("/a/b.wim", true, true, 0), Ok(MacImageSource::Wimlib)));
    assert!(matches!(macos_image_source("/a/b.iso", true, true, 0), Ok(MacImageSource::Iso)));
    assert!(matches!(macos_image_source("/a/b.esd", true, false, 0), Err(AppError::ImageError(_))));
    match macos_image_source("/a/win.vhdx", true, false, 42) {
        Ok(MacImageSource::Single(i)) => {
            assert_eq!(i.index, 1);
            assert_eq!(i.name, "win");
            assert_eq!(i.size, 42);
        }
        _ => panic!("expected a single image"),
    }
    match macos_image_source("/missing.wim", false, true, 0) {
        Err(AppError::ImageError(m)) => assert_eq!(m, "Image file does not exist: /missing.wim"),
        _ => panic!("expected error"),
    }
}

#[test]
fn install_image_places() {
    let c = install_image_candidates("/Volumes/CCCOMA");
    assert_eq!(c.len(), 12);
    assert_eq!(c[0], "/Volumes/CCCOMA/sources/install.wim");
    assert_eq!(c[5], "/Volumes/CCCOMA/Sources/install.esd");
    assert_eq!(c[11], "/Volumes/CCCOMA/SOURCES/INSTALL.ESD");
}

fn probe(fs: &str, vol: &str, content: &str, size: Option<u64>) -> PartitionProbe {
    PartitionProbe {
        filesystem_type: s(fs),
        volume_name: s(vol),
        content: s(content),
        total_size: size,
        size: None,
    }
}

#[test]
fn efi_partition_recognition() {
    assert!(partition_looks_efi("EFI", "", &probe("", "", "", None)));
    assert!(partition_looks_efi("", "efi", &probe("", "", "", None)));
    assert!(partition_looks_efi("", "", &probe("FAT32", "", "", Some(536870912))));
    assert!(partition_looks_efi("", "", &probe("MS-DOS", "", "", Some(1))));
    assert!(!partition_looks_efi("", "", &probe("msdos", "", "", Some(1))));
    assert!(!partition_looks_efi("", "", &probe("fat32", "", "", Some(4294967296))));
    assert!(!partition_looks_efi("", "", &probe("fat32", "", "", None)));
    assert!(!partition_looks_efi("Microsoft Basic Data", "WTGA", &probe("ntfs", "", "", Some(1))));
    assert!(alternative_efi_candidate("disk4s3", "disk4s2", "disk4s1", &Some(probe("FAT32", "", "", None))));
    assert!(!alternative_efi_candidate("disk4s1", "disk4s2", "disk4s1", &Some(probe("FAT32", "", "", None))));
    assert!(!alternative_efi_candidate("disk4s3", "disk4s2", "disk4s1", &None));
}

fn entry(id: &str, content: &str, mount: &str, info: Option<PartitionProbe>) -> PartitionEntry {
    PartitionEntry {
        device_identifier: s(id),
        content: s(content),
        volume_name: s(""),
        mount_point: s(mount),
        info,
    }
}

#[test]
fn efi_partition_choice() {
    let parts = vec![
        entry("disk4s2", "Microsoft Basic Data", "/Volumes/W", Some(probe("ntfs", "", "", Some(1)))),
        entry("disk4s1", "EFI", "", Some(probe("msdos", "", "", Some(1)))),
    ];
    assert_eq!(choose_efi_partition("disk4s2", "disk4", &parts, false).unwrap(), "disk4s1");
    assert_eq!(choose_efi_partition("disk4s2", "disk4", &vec![], true).unwrap(), "disk4s1");
    match choose_efi_partition("disk4s1", "disk4", &vec![], true) {
        Err(AppError::DiskError(m)) => assert_eq!(m, "Cannot find EFI partition on disk4"),
        _ => panic!("expected error"),
    }
    match choose_efi_partition("disk4s2", "", &parts, true) {
        Err(AppError::DiskError(m)) => assert_eq!(m, "Cannot determine parent disk for partition disk4s2"),
        _ => panic!("expected error"),
    }
}

#[test]
fn system_partition_choice() {
    let parts = vec![
        entry("disk4s1", "EFI", "/Volumes/EFI", Some(probe("msdos", "", "", Some(1)))),
        entry("disk4s2", "Microsoft Basic Data", "/Volumes/W", Some(probe("ntfs", "", "", Some(1)))),
    ];
    assert_eq!(system_partition_on_disk(&parts, &vec![false, true]).as_deref(), Some("disk4s2"));
    assert_eq!(system_partition_on_disk(&parts, &vec![false, false]).as_deref(), Some("disk4s2"));
    assert_eq!(system_partition_on_disk(&vec![], &vec![]), None);
}

#[test]
fn uefi_repair_plan() {
    match repair_boot_uefi_for_target("disk4s2", "disk4s1", "/Volumes/W", "/Volumes/EFI", false) {
        Err(AppError::DiskError(m)) => assert_eq!(m, "Target partition disk4s2 does not contain a Windows directory"),
        _ => panic!("expected error"),
    }
    let p = repair_boot_uefi_for_target("disk4s2", "disk4s1", "/Volumes/W", "/Volumes/EFI/", true).unwrap();
    assert_eq!(p.artifacts[0], "/Volumes/EFI/EFI/Microsoft/Boot/BCD");
    assert_eq!(p.artifacts[2], "/Volumes/EFI/EFI/Boot/bootx64.efi");
    assert_eq!(p.message, "Boot repair completed (UEFI). System: /dev/disk4s2 -> /Volumes/W ; EFI: /dev/disk4s1 -> /Volumes/EFI/");
    assert_eq!(uefi_boot_artifacts("/e")[1], "/e/EFI/Microsoft/Boot/bootmgfw.efi");
    assert!(check_bcd_header(true, "72656766\n").is_ok());
    match check_bcd_header(true, "00000000") {
        Err(AppError::DiskError(m)) => assert_eq!(m, "Invalid BCD file header: 00000000"),
        _ => panic!("expected error"),
    }
    assert!(matches!(check_bcd_header(false, ""), Err(AppError::DiskError(_))));
}

fn features() -> ExtraFeatures {
    ExtraFeatures {
        no_default_drive_letter: false,
        repartition: false,
        do_not_format: false,
        enable_bitlocker: false,
        wimboot: false,
        compact_os: false,
        install_dotnet35: false,
        block_local_disk: false,
        disable_winre: false,
        skip_oobe: false,
        disable_uasp: false,
        driver_path: None,
        ntfs_uefi_support: false,
        fix_letter: false,
    }
}

#[test]
fn extra_features_on_macos() {
    let none = apply_macos_extra_features(&features());
    assert!(none.applied.is_empty() && none.script_text.is_none());
    let mut f = features();
    f.disable_winre = true;
    f.compact_os = true;
    f.wimboot = true;
    f.driver_path = Some(s("C:\\drivers"));
    f.ntfs_uefi_support = true;
    let o = apply_macos_extra_features(&f);
    assert_eq!(o.applied, vec![s("disable_winre"), s("compact_os")]);
    assert_eq!(o.unsupported, vec![s("wimboot"), s("driver_path")]);
    assert_eq!(o.notes, vec![s("ntfs_uefi_support is ignored on macOS UEFI write path")]);
    let text = o.script_text.unwrap();
    assert!(text.starts_with("@echo off\r\nsetlocal enableextensions\r\n"));
    assert!(text.contains("reagentc /disable"));
    assert!(text.contains("compact.exe /CompactOS:always"));
    assert!(text.ends_with("endlocal\r\nexit /b 0\r\n"));
}

#[test]
fn setup_complete_is_extended_once() {
    let fresh = setup_complete_content(None);
    assert_eq!(fresh, "@echo off\r\ncall \"%SystemRoot%\\Setup\\Scripts\\WTGA-ExtraFeatures.cmd\"\r\nexit /b 0\r\n");
    assert_eq!(setup_complete_content(Some(&fresh)), fresh);
    let other = setup_complete_content(Some("echo hi"));
    assert_eq!(other, "echo hi\r\ncall \"%SystemRoot%\\Setup\\Scripts\\WTGA-ExtraFeatures.cmd\"\r\nexit /b 0\r\n");
}

#[test]
fn macos_write_checks() {
    match macos_write_prerequisites("/x.wim", true, BootMode::NonUefi, true, true, true, true) {
        Err(AppError::Unsupported(m)) => assert_eq!(m, "macOS WTG write currently supports UEFI boot modes only"),
        _ => panic!("expected error"),
    }
    assert!(macos_write_prerequisites("/x.wim", true, BootMode::UefiGpt, true, true, true, false).is_ok());
    match macos_target_check("disk0", true, &features()) {
        Err(AppError::DiskError(m)) => assert_eq!(m, "Refusing to write to internal disk /dev/disk0 on macOS. Please select an external target disk."),
        _ => panic!("expected error"),
    }
    let mut f = features();
    f.do_not_format = true;
    assert!(matches!(macos_target_check("disk4", false, &f), Err(AppError::Unsupported(_))));
    f.repartition = true;
    assert!(macos_target_check("disk4", false, &f).is_ok());
    assert_eq!(
        macos_write_message("/Volumes/W", "/Volumes/EFI", &vec![s("skip_oobe")], &vec![]),
        "WTG image applied to NTFS system partition /Volumes/W and UEFI boot files staged at /Volumes/EFI. Applied extra features: skip_oobe."
    );
}

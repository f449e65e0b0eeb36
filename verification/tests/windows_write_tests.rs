use wtga::boot::{
    bcdboot_write_boot_file, bcdedit_fix_boot_file_typical, bcdedit_runs, bootice_write_mbr_pbr_and_act,
    runs_if_present,
};
use wtga::diskpart::{
    assign_drive_letter, diskpart_gpt_uefi, diskpart_repartition, format_ntfs, nonzero_sizes,
    remove_drive_letter, repartition_auto_assign, set_no_default_drive_letter,
};
use wtga::models::FirmwareType;
use wtga::vhd::{attach_vhd, detach_vhd, temp_files_to_clean, vhd_detach_targets};

#[test]
fn bcdboot_plan_for_uefi() {
    let p = bcdboot_write_boot_file("E:\\", "S:\\", FirmwareType::UEFI);
    assert_eq!(p.source_windows, "E:\\windows");
    assert_eq!(p.target, "S:");
    assert_eq!(p.test_file, "S:\\__test_write_access__.tmp");
    assert_eq!(p.args, vec!["E:\\windows", "/s", "S:", "/f", "uefi", "/l", "zh-CN", "/v"]);
    assert_eq!(p.bcd_path, "S:\\EFI\\Microsoft\\Boot\\BCD");
    assert_eq!(p.bootmgr_path, "S:\\EFI\\Microsoft\\Boot\\bootmgfw.efi");
}

#[test]
fn bcdboot_plan_for_bios_without_trailing_slash() {
    let p = bcdboot_write_boot_file("E:", "E:", FirmwareType::BIOS);
    assert_eq!(p.source_windows, "E:\\windows");
    assert_eq!(p.bcd_path, "E:\\Boot\\BCD");
    assert_eq!(p.bootmgr_path, "E:\\bootmgr");
}

#[test]
fn bcdedit_fix_commands() {
    let p = bcdedit_fix_boot_file_typical("S:\\", "E:\\", FirmwareType::UEFI);
    assert_eq!(p.store, "S:\\EFI\\Microsoft\\Boot\\BCD");
    assert_eq!(p.commands.len(), 3);
    assert_eq!(p.commands[0], vec!["/store", "S:\\EFI\\Microsoft\\Boot\\BCD", "/set", "{bootmgr}", "device", "partition=S:"]);
    assert_eq!(p.commands[2], vec!["/store", "S:\\EFI\\Microsoft\\Boot\\BCD", "/set", "{default}", "osdevice", "partition=E:"]);
}

#[test]
fn bootice_runs_three_times() {
    let calls = bootice_write_mbr_pbr_and_act("E:", "C:\\app");
    assert_eq!(calls.len(), 3);
}

#[test]
fn zero_sizes_are_dropped() {
    assert_eq!(nonzero_sizes(&[0, 100, 0, 200]), vec![100, 200]);
}

#[test]
fn repartition_script() {
    assert_eq!(
        diskpart_repartition("E:", &[]),
        "select volume E\nclean\nconvert mbr\ncreate partition primary\nselect partition 1\nformat fs=ntfs quick\nactive\nassign letter=E\nexit\n"
    );
    assert_eq!(
        diskpart_repartition("E", &[500, 0, 700]),
        "select volume E\nclean\nconvert mbr\ncreate partition primary size 500\ncreate partition primary\nselect partition 1\nformat fs=ntfs quick\nactive\nassign letter=E\nselect partition 2\nformat fs=ntfs quick\nassign\nexit\n"
    );
}

#[test]
fn gpt_script_for_fixed_disk() {
    assert_eq!(
        diskpart_gpt_uefi("300", "2", "E", "Fixed (NVMe)", &[]),
        "select disk 2\nclean\nconvert gpt NOERR\ncreate partition efi size 300\ncreate partition primary\nselect partition 3\nformat fs=ntfs quick\nassign letter=E\nselect partition 2\nformat fs=fat32 quick\nassign\nexit\n"
    );
}

#[test]
fn gpt_script_for_removable_disk() {
    assert_eq!(
        diskpart_gpt_uefi("300", "2", "E", "Removable", &[]),
        "select disk 2\nclean\nconvert gpt NOERR\ncreate partition primary size 300\ncreate partition primary\nselect partition 2\nformat fs=ntfs quick\nassign letter=E\nselect partition 1\nremove NOERR\nformat fs=fat32 quick\nassign\nexit\n"
    );
}

#[test]
fn small_scripts() {
    assert_eq!(repartition_auto_assign("1"), "select disk 1\nclean\ncreate partition primary\nselect partition 1\nformat fs=ntfs quick\nactive\nassign\nexit\n");
    assert_eq!(assign_drive_letter("1", "F"), "select disk 1\nclean\ncreate partition primary\nselect partition 1\nformat fs=ntfs quick\nassign letter=F\nexit\n");
    assert_eq!(set_no_default_drive_letter("E:"), "select volume E\nattributes volume set nodefaultdriveletter\n");
    assert_eq!(remove_drive_letter("S:\\"), "select volume S\nremove\nexit\n");
    assert_eq!(format_ntfs("E:"), "format E:/FS:ntfs /q /V: /Y");
}

#[test]
fn vhd_attach_detach_and_cleanup() {
    assert!(attach_vhd("D:\\win.vhdx").contains("D:\\win.vhdx"));
    assert!(detach_vhd("D:\\win.vhdx").contains("detach"));
    assert!(!temp_files_to_clean("win").is_empty());
}

#[test]
fn attached_vhds_are_found_by_regex() {
    let listing = "  VDisk  C:\\temp\\win.vhdx  Attached\n  VDisk  D:\\other\\x.vhd\n  VDisk  E:\\a\\WIN.VHD ok";
    let found = vhd_detach_targets("win", listing).unwrap();
    assert_eq!(found, vec!["C:\\temp\\win.vhd".to_string(), "E:\\a\\WIN.VHD".to_string()]);
    let escaped = vhd_detach_targets("a.b", "F:\\x\\aXb.vhd").unwrap();
    assert!(escaped.is_empty());
    let dotted = vhd_detach_targets("a.b", "F:\\y\\a.b.vhd").unwrap();
    assert_eq!(dotted, vec!["F:\\y\\a.b.vhd".to_string()]);
}

#[test]
fn bcdedit_runs_only_when_store_exists() {
    let p = bcdedit_fix_boot_file_typical("S:\\", "E:\\", FirmwareType::BIOS);
    assert_eq!(p.store, "S:\\Boot\\BCD");
    assert!(bcdedit_runs(&p, false).is_empty());
    let runs = bcdedit_runs(&p, true);
    assert_eq!(runs.len(), 3);
    assert_eq!(runs[0], vec!["/store", "S:\\Boot\\BCD", "/set", "{bootmgr}", "device", "partition=S:"]);
}

#[test]
fn bootice_skips_missing_programs() {
    let calls = bootice_write_mbr_pbr_and_act("E:", "C:\\app");
    let runs = runs_if_present(&calls, &vec![true, false, true]);
    assert_eq!(runs.len(), 2);
    assert_eq!(runs[0].args[1], "/mbr");
    assert_eq!(runs[1].program, "C:\\app\\bootice.exe");
    assert!(runs_if_present(&calls, &vec![false, false, false]).is_empty());
}

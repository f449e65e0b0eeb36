use wtga::error::AppError;
use wtga::hardware::{
    dedup_keep_order, format_gpu_vram, format_memory_summary, hardware_overview,
    installed_memory_bytes, memory_type_name, parse_u64_text, AdapterFacts, BoardFacts, DiskFacts,
    GpuFacts, HardwareFacts, MemoryFacts, NicFacts, ProcessorFacts, PsDiskFacts, VramSize,
};
use wtga::models::FirmwareType;
use wtga::repair::{
    check_target_root, disk_number_from_output, disk_number_query, normalize_drive_root,
    parse_firmware, repair_boot_message, repair_boot_request, repair_boot_steps, BootRepairStep,
};

fn s(v: &str) -> String {
    v.to_string()
}

#[test]
fn dedup_keeps_first_occurrence() {
    let v = vec![s("a"), s("b"), s("a"), s("c"), s("b")];
    assert_eq!(dedup_keep_order(v), vec![s("a"), s("b"), s("c")]);
}

#[test]
fn dedup_twice_changes_nothing() {
    let v = vec![s("x"), s("x"), s("y")];
    let once = dedup_keep_order(v);
    let twice = dedup_keep_order(once.clone());
    assert_eq!(once, twice);
}

#[test]
fn memory_type_names() {
    assert_eq!(memory_type_name(26), "DDR4");
    assert_eq!(memory_type_name(34), "DDR5");
    assert_eq!(memory_type_name(99), "Unknown");
}

#[test]
fn parse_u64_text_falls_back_to_digits() {
    assert_eq!(parse_u64_text(Some(" 8589934592 ")), Some(8589934592));
    assert_eq!(parse_u64_text(Some("8 GB")), Some(8));
    assert_eq!(parse_u64_text(Some("  ")), None);
    assert_eq!(parse_u64_text(Some("none")), None);
    assert_eq!(parse_u64_text(None), None);
}

#[test]
fn installed_memory_saturates() {
    assert_eq!(installed_memory_bytes(true, 16), Some(16384));
    assert_eq!(installed_memory_bytes(true, 0), None);
    assert_eq!(installed_memory_bytes(false, 16), None);
    assert_eq!(installed_memory_bytes(true, u64::MAX), Some(u64::MAX));
}

fn module(gb: Option<u64>, clock: Option<u32>, code: Option<u16>) -> MemoryFacts {
    MemoryFacts {
        capacity_gb: gb,
        configured_clock_speed: clock,
        speed: None,
        smbios_memory_type: code,
        memory_type: None,
    }
}

#[test]
fn memory_summary_of_modules() {
    let ms = vec![module(Some(8), Some(3200), Some(26)), module(Some(8), Some(2666), None)];
    assert_eq!(format_memory_summary(&ms, None), "16GB DDR4 3200MHz (8GB + 8GB)");
}

#[test]
fn memory_summary_unknown_type_says_ram() {
    let ms = vec![module(Some(4), None, Some(99))];
    assert_eq!(format_memory_summary(&ms, None), "4GB RAM (4GB)");
}

#[test]
fn memory_summary_from_installed_total() {
    let ms = vec![module(None, Some(4800), Some(34))];
    assert_eq!(format_memory_summary(&ms, Some(32)), "32GB DDR5 4800MHz");
    assert_eq!(format_memory_summary(&Vec::new(), Some(8)), "8GB RAM");
    assert_eq!(format_memory_summary(&Vec::new(), None), "Unknown");
}

#[test]
fn vram_text() {
    assert_eq!(format_gpu_vram(VramSize { bytes: 0, gb: 0, mb: 0 }), "");
    assert_eq!(format_gpu_vram(VramSize { bytes: 8589934592, gb: 8, mb: 8192 }), "8GB");
    assert_eq!(format_gpu_vram(VramSize { bytes: 134217728, gb: 0, mb: 128 }), "128MB");
    assert_eq!(format_gpu_vram(VramSize { bytes: 1000, gb: 0, mb: 0 }), "1MB");
}

fn empty_facts() -> HardwareFacts {
    HardwareFacts {
        processors: vec![],
        boards: vec![],
        memories: vec![],
        installed_memory_gb: None,
        adapters: vec![],
        gpus: vec![],
        monitors: vec![],
        pnp_monitors: vec![],
        disks: vec![],
        ps_disks: vec![],
        audio_devices: vec![],
        nics: vec![],
    }
}

#[test]
fn overview_labels_and_filters() {
    let mut f = empty_facts();
    f.processors = vec![
        ProcessorFacts { name: Some(s(" Intel(R) Core(TM) i7 ")), number_of_cores: Some(8) },
        ProcessorFacts { name: Some(s("Intel(R) Core(TM) i7")), number_of_cores: Some(8) },
        ProcessorFacts { name: Some(s("  ")), number_of_cores: Some(4) },
    ];
    f.boards = vec![
        BoardFacts { manufacturer: None, product: Some(s("  ")) },
        BoardFacts { manufacturer: Some(s("ASUS ")), product: Some(s(" PRIME")) },
    ];
    f.adapters = vec![
        AdapterFacts { software: true, description: s("Basic Render"), vram: VramSize { bytes: 0, gb: 0, mb: 0 } },
        AdapterFacts { software: false, description: s("RTX 4070"), vram: VramSize { bytes: 12884901888, gb: 12, mb: 12288 } },
    ];
    f.gpus = vec![GpuFacts { name: Some(s("Ignored")), vram: VramSize { bytes: 0, gb: 0, mb: 0 } }];
    f.monitors = vec![Some(s("Generic PnP Monitor")), Some(s("DELL U2720Q"))];
    f.pnp_monitors = vec![Some(s("Generic Monitor")), Some(s("Generic Monitor (LG)")), Some(s("DELL U2720Q"))];
    f.disks = vec![];
    f.ps_disks = vec![
        PsDiskFacts { name: Some(s(" Samsung SSD ")), size_gb: 500, number: Some(0) },
        PsDiskFacts { name: None, size_gb: 0, number: Some(1) },
    ];
    f.audio_devices = vec![Some(s(" Realtek Audio ")), Some(s("")), None];
    f.nics = vec![
        NicFacts { name: Some(s("Intel Ethernet")), physical_adapter: Some(true), net_enabled: None },
        NicFacts { name: Some(s("Hyper-V Virtual Ethernet")), physical_adapter: Some(true), net_enabled: Some(true) },
        NicFacts { name: Some(s("Wi-Fi Direct")), physical_adapter: Some(false), net_enabled: Some(false) },
        NicFacts { name: Some(s("Card")), physical_adapter: Some(true), net_enabled: None },
    ];
    let o = hardware_overview(&f);
    assert_eq!(o.processors, vec![s("Intel(R) Core(TM) i7 (8C)")]);
    assert_eq!(o.motherboard, "ASUS PRIME");
    assert_eq!(o.memory_summary, "Unknown");
    assert_eq!(o.graphics, vec![s("RTX 4070 (12GB)")]);
    assert_eq!(o.monitors, vec![s("DELL U2720Q"), s("Generic Monitor (LG)")]);
    assert_eq!(o.disks, vec![s("Samsung SSD (500GB)"), s("Disk 1")]);
    assert_eq!(o.audio_devices, vec![s("Realtek Audio")]);
    assert_eq!(o.network_adapters, vec![s("Intel Ethernet")]);
}

#[test]
fn overview_prefers_wmi_disks_and_falls_back_for_graphics() {
    let mut f = empty_facts();
    f.gpus = vec![GpuFacts { name: Some(s(" Radeon ")), vram: VramSize { bytes: 0, gb: 0, mb: 0 } }];
    f.disks = vec![DiskFacts { model: Some(s("WD Blue")), size_gb: 1000 }, DiskFacts { model: None, size_gb: 5 }];
    f.ps_disks = vec![PsDiskFacts { name: Some(s("Other")), size_gb: 1, number: None }];
    let o = hardware_overview(&f);
    assert_eq!(o.graphics, vec![s("Radeon")]);
    assert_eq!(o.disks, vec![s("WD Blue (1000GB)")]);
    assert_eq!(o.motherboard, "Unknown");
}

#[test]
fn drive_root_is_normalized() {
    assert_eq!(normalize_drive_root("e").unwrap(), "E:\\");
    assert_eq!(normalize_drive_root(" f:\\/ ").unwrap(), "F:\\");
    assert_eq!(normalize_drive_root("G:/").unwrap(), "G:\\");
    match normalize_drive_root("  \\") {
        Err(AppError::InvalidParameter(m)) => assert_eq!(m, "Drive letter is required, e.g. E or E:"),
        _ => panic!("expected an error"),
    }
    match normalize_drive_root("1:") {
        Err(AppError::InvalidParameter(m)) => assert_eq!(m, "Drive letter must start with A-Z"),
        _ => panic!("expected an error"),
    }
}

#[test]
fn firmware_names() {
    assert!(matches!(parse_firmware(" UEFI "), Ok(FirmwareType::UEFI)));
    assert!(matches!(parse_firmware("bios"), Ok(FirmwareType::BIOS)));
    assert!(matches!(parse_firmware("All"), Ok(FirmwareType::ALL)));
    match parse_firmware("efi") {
        Err(AppError::InvalidParameter(m)) => assert_eq!(m, "Firmware must be one of: uefi, bios, all"),
        _ => panic!("expected an error"),
    }
}

#[test]
fn disk_number_lookup() {
    assert_eq!(
        disk_number_query("e:\\").unwrap(),
        "(Get-Partition -DriveLetter E -ErrorAction SilentlyContinue | Select-Object -First 1 -ExpandProperty DiskNumber)"
    );
    assert!(matches!(disk_number_query(""), Err(AppError::InvalidParameter(_))));
    assert_eq!(disk_number_from_output("E:\\", " 2\r\n").unwrap(), "2");
    match disk_number_from_output("E:\\", "  ") {
        Err(AppError::DeviceNotFound(m)) => assert_eq!(m, "Cannot resolve disk number for E:\\"),
        _ => panic!("expected an error"),
    }
    match check_target_root("E:\\", false) {
        Err(AppError::DeviceNotFound(m)) => assert_eq!(m, "Target path not found: E:\\"),
        _ => panic!("expected an error"),
    }
}

fn step_text(st: &BootRepairStep) -> String {
    match st {
        BootRepairStep::WriteBootFiles { source, target, fw } => format!("write {} {} {:?}", source, target, fw),
        BootRepairStep::FixBcdStore { bcd_disk, osdevice, fw } => format!("fix {} {} {:?}", bcd_disk, osdevice, fw),
    }
}

#[test]
fn repair_steps_for_all_firmware() {
    let steps = repair_boot_steps(FirmwareType::ALL, "E:\\", Some("S:\\"));
    let texts: Vec<String> = steps.iter().map(step_text).collect();
    assert_eq!(
        texts,
        vec![
            "write E:\\ E:\\ BIOS".to_string(),
            "fix E:\\ E:\\ BIOS".to_string(),
            "write E:\\ S:\\ UEFI".to_string(),
            "fix S:\\ E:\\ UEFI".to_string(),
        ]
    );
    assert_eq!(repair_boot_steps(FirmwareType::BIOS, "E:\\", None).len(), 2);
}

#[test]
fn repair_request_and_message() {
    let (root, fw) = repair_boot_request("e", "uefi").unwrap();
    assert_eq!(root, "E:\\");
    assert!(matches!(fw, FirmwareType::UEFI));
    assert!(matches!(repair_boot_request("e", "dos"), Err(AppError::InvalidParameter(_))));
    assert_eq!(repair_boot_message("E:\\", "uefi"), "Boot repair completed for E:\\ (UEFI)");
}

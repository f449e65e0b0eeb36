use wtga::benchmark::{
    benchmark_free_space_root, benchmark_mode, benchmark_temp_file, benchmark_unsupported,
    full_write_steps, full_write_target, scenario_io_size, scenario_line_cells, scenario_threads,
    worker_file, BenchmarkCancel, BenchmarkMode,
};
use wtga::command::{
    decode_output, diskpart_outcome, log_file_name, prevent_sleep, restore_sleep,
    run_diskpart_script, CommandExecutor,
};
use wtga::error::AppError;
use wtga::system::{
    get_cpu_model, cpu_model_from_names, get_os_version, os_version_from_registry, os_version_from_wmi,
    get_total_memory, total_memory_from_capacities, usb_event_type_name, OutputCapture, UsbEventType,
};

#[test]
fn output_decoding() {
    assert_eq!(decode_output("héllo".as_bytes(), true), "héllo");
    // "中文" in GBK.
    assert_eq!(decode_output(&[0xD6, 0xD0, 0xCE, 0xC4], true), "中文");
    assert_eq!(decode_output(&[0x61, 0xFF], false), "a\u{FFFD}");
}

#[test]
fn command_outcomes() {
    assert_eq!(CommandExecutor::outcome("dism", true, b"ok", b"", false).unwrap(), "ok");
    match CommandExecutor::outcome("dism", false, b"out", b"  ", false) {
        Err(AppError::CommandFailed(m)) => assert_eq!(m, "dism: out"),
        _ => panic!("expected failure"),
    }
    match CommandExecutor::outcome("dism", false, b"out", b"bad", false) {
        Err(AppError::CommandFailed(m)) => assert_eq!(m, "dism: bad"),
        _ => panic!("expected failure"),
    }
    assert_eq!(CommandExecutor::allow_fail_output(b"a", b"b", false), "ab");
}

#[test]
fn diskpart_results() {
    match diskpart_outcome(false, b"", b"no disk") {
        Err(AppError::DiskError(m)) => assert_eq!(m, "Diskpart failed: no disk"),
        _ => panic!("expected failure"),
    }
    assert_eq!(diskpart_outcome(true, b"done", b"").unwrap(), "done");
    match run_diskpart_script("list disk") {
        Err(AppError::SystemError(m)) => assert_eq!(m, "Diskpart is only available on Windows"),
        _ => panic!("expected failure"),
    }
}

#[test]
fn sleep_flags_and_log_name() {
    assert_eq!(prevent_sleep(), 0x8000_0001);
    assert_eq!(restore_sleep(), 0x8000_0000);
    assert_eq!(log_file_name("2024-01-02_03-04-05", 77), "wtga_2024-01-02_03-04-05_pid77.log");
}

#[test]
fn benchmark_modes_and_paths() {
    assert_eq!(benchmark_mode("multithread"), BenchmarkMode::MultiThread);
    assert_eq!(benchmark_mode("fullwrite"), BenchmarkMode::FullWrite);
    assert_eq!(benchmark_mode("full"), BenchmarkMode::Full);
    assert_eq!(benchmark_mode("scenario"), BenchmarkMode::Scenario);
    assert_eq!(benchmark_mode("anything"), BenchmarkMode::Quick);
    assert_eq!(benchmark_temp_file("E:\\/"), "E:\\wtg_bench.bin");
    assert_eq!(benchmark_free_space_root("E:"), "E:\\");
    assert_eq!(worker_file("E:\\wtg_bench.bin", 3), "E:\\wtg_bench.bin.mt3");
}

#[test]
fn full_write_sizes() {
    let mib = 1024 * 1024u64;
    assert_eq!(full_write_target(100 * mib + 130 * mib).unwrap(), 128 * mib);
    match full_write_target(100 * mib + 63 * mib) {
        Err(AppError::InvalidParameter(m)) => assert_eq!(m, "Not enough free space for full benchmark (needs at least ~64MB)"),
        _ => panic!("expected error"),
    }
    assert!(full_write_target(0).is_err());
    assert_eq!(full_write_steps(3 * 1024 * mib + 5), 3);
    assert_eq!(full_write_steps(64 * mib), 1);
}

#[test]
fn scenario_lines() {
    assert!(scenario_line_cells("# comment").is_none());
    assert!(scenario_line_cells("1,2,3").is_none());
    let cells = scenario_line_cells(" 5000, 100 ,abc,4096,4096,4096,4096,4096,4096,99999999,0.5,0.1, 64 ").unwrap();
    assert_eq!(cells.len(), 13);
    assert_eq!(scenario_io_size(&cells[0]), 4096);
    assert_eq!(scenario_io_size(&cells[1]), 4096);
    assert_eq!(scenario_io_size(&cells[2]), 4096);
    assert_eq!(scenario_io_size(&cells[9]), 16777216);
    assert_eq!(scenario_threads(&cells[12]), 32);
    let t: Vec<char> = "0".chars().collect();
    assert_eq!(scenario_threads(&t), 1);
    let big: Vec<char> = "12288".chars().collect();
    assert_eq!(scenario_io_size(&big), 12288);
}

#[test]
fn benchmark_cancellation() {
    let mut c = BenchmarkCancel::new();
    assert!(c.ensure_not_cancelled().is_ok());
    c.request_cancel();
    assert!(c.is_cancelled());
    match c.ensure_not_cancelled() {
        Err(AppError::SystemError(m)) => assert_eq!(m, "Benchmark cancelled by user"),
        _ => panic!("expected cancellation"),
    }
    c.clear_cancel_flag();
    assert!(c.ensure_not_cancelled().is_ok());
    match benchmark_unsupported() {
        AppError::Unsupported(m) => assert_eq!(m, "Benchmark only implemented on Windows"),
        _ => panic!("expected unsupported"),
    }
}

#[test]
fn machine_description() {
    assert_eq!(os_version_from_wmi(Some("Microsoft Windows 11 Pro"), Some("22631")).as_deref(), Some("Microsoft Windows 11 Pro Build 22631"));
    assert_eq!(os_version_from_wmi(Some(""), Some("1")), None);
    assert_eq!(os_version_from_registry("Windows 10 Pro", "22H2", "19045").as_deref(), Some("Windows 10 Pro 22H2 Build 19045"));
    assert_eq!(os_version_from_registry("Windows 10 Pro", "", "").as_deref(), Some("Windows 10 Pro"));
    assert_eq!(os_version_from_registry("", "22H2", "1"), None);
    assert_eq!(get_os_version(None, None), "Unknown");
    assert_eq!(get_os_version(None, Some("Linux 6".to_string())), "Linux 6");
    let caps = vec![Some(" 8589934592 ".to_string()), Some("x".to_string()), None, Some("8589934592".to_string())];
    assert_eq!(total_memory_from_capacities(&caps), Some(17179869184));
    assert_eq!(total_memory_from_capacities(&vec![]), None);
    assert_eq!(get_total_memory(None, None, 5), 5);
    assert_eq!(get_total_memory(Some(7), Some(6), 5), 7);
    let names = vec![None, Some("  ".to_string()), Some(" Ryzen 7 ".to_string())];
    assert_eq!(cpu_model_from_names(&names).as_deref(), Some(" Ryzen 7 "));
    assert_eq!(get_cpu_model(None, "  "), "Unknown CPU");
    assert_eq!(get_cpu_model(None, " M2 "), "M2");
    assert_eq!(usb_event_type_name(UsbEventType::Connected), "connected");
    let cap = OutputCapture::new("t1", "Applying");
    assert_eq!(cap.progress_message(Some("45")), "Applying (45%)");
    assert_eq!(cap.progress_message(None), "Applying...");
}

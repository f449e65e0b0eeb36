use wtga::smartctl_paths::{filter_smartctl_candidates, smartctl_candidate_list};

#[test]
fn bundled_copies_come_first() {
    let c = smartctl_candidate_list(Some("C:\\App"), Some("D:\\work\\"));
    assert_eq!(c.len(), 13);
    assert_eq!(c[0], "C:\\App\\smartmontools\\bin\\smartctl.exe");
    assert_eq!(c[2], "C:\\App\\..\\resources\\smartmontools\\bin\\smartctl.exe");
    assert_eq!(c[5], "C:\\App\\smartctl.exe");
    assert_eq!(c[6], "D:\\work\\src-tauri\\resources\\smartmontools\\bin\\smartctl.exe");
    assert_eq!(c[9], "smartctl");
    assert_eq!(c[12], "C:\\Program Files (x86)\\smartmontools\\bin\\smartctl.exe");
    let only = smartctl_candidate_list(None, None);
    assert_eq!(only, vec!["smartctl", "smartctl.exe", "C:\\Program Files\\smartmontools\\bin\\smartctl.exe", "C:\\Program Files (x86)\\smartmontools\\bin\\smartctl.exe"]);
}

#[test]
fn missing_paths_dropped_and_repeats_removed() {
    let c: Vec<String> = ["C:\\A\\smartctl.exe", "C:\\B\\smartctl.exe", "c:\\a\\SMARTCTL.EXE", "smartctl", "SmartCtl", "smartctl.exe"]
        .iter()
        .map(|s| s.to_string())
        .collect();
    let r = filter_smartctl_candidates(&c, &vec![true, false, true, false, false, false]);
    assert_eq!(r, vec!["C:\\A\\smartctl.exe", "smartctl", "smartctl.exe"]);
}

use wtga::error::AppError;
use wtga::image::{
    auto_choose_wim_index, dism_apply_image, esd_index_for_count, esd_info_call, extract_field,
    extract_size_field, file_extension, fix_letter, get_image_info, image_apply, image_extra,
    imagex_apply, index_for_image_count, iso_commands, iso_image_files, iso_without_image,
    sxs_source, sxs_source_available, unattend_xml, verify_system_files, wimboot_apply, win7_reg,
    ImageInfoSource, WimIndexChoice,
};

fn owned(v: &[&str]) -> Vec<String> {
    v.iter().map(|s| s.to_string()).collect()
}

#[test]
fn field_value_is_trimmed_after_separator() {
    let block = "Index : 2\n  Name : Windows 10 Pro  \nDescription : Pro edition\n";
    assert_eq!(extract_field(block, "Name"), "Windows 10 Pro");
    assert_eq!(extract_field(block, "Description"), "Pro edition");
    assert_eq!(extract_field(block, "Edition"), "");
}

#[test]
fn size_field_skips_separators() {
    let block = "Index : 1\nSize : 15,234,567 bytes\n";
    assert_eq!(extract_size_field(block), 15234567);
    assert_eq!(extract_size_field("Name : x\n"), 0);
}

#[test]
fn extension_of_paths() {
    assert_eq!(file_extension("D:\\images\\install.WIM"), Some(vec!['W', 'I', 'M']));
    assert_eq!(file_extension("C:\\dir.d\\noext"), None);
    assert_eq!(file_extension("C:\\.hidden"), None);
    assert_eq!(file_extension("archive.tar.gz"), Some(vec!['g', 'z']));
    assert_eq!(file_extension("D:\\x\\foo.iso\\"), Some(vec!['i', 's', 'o']));
    assert_eq!(file_extension("D:/x/foo.iso//"), Some(vec!['i', 's', 'o']));
}

#[test]
fn wim_index_first_step() {
    match auto_choose_wim_index("D:\\install.wim", "3") {
        WimIndexChoice::Chosen(s) => assert_eq!(s, "3"),
        _ => panic!("a set index is kept"),
    }
    assert!(matches!(auto_choose_wim_index("D:\\install.ESD", "0"), WimIndexChoice::CountEsdIndexes));
    assert!(matches!(auto_choose_wim_index("D:\\install.wim", "0"), WimIndexChoice::CountImages));
}

#[test]
fn index_from_counts() {
    assert_eq!(index_for_image_count(3), "2");
    assert_eq!(index_for_image_count(1), "1");
    assert_eq!(index_for_image_count(5), "1");
    assert_eq!(esd_index_for_count(2), "4");
    assert_eq!(esd_index_for_count(1), "1");
    assert_eq!(esd_index_for_count(0), "1");
}

#[test]
fn esd_info_arguments() {
    let c = esd_info_call("E:\\install.esd");
    assert_eq!(c.program, "dism.exe");
    assert_eq!(c.args, owned(&["/get-wiminfo", "/wimfile:E:\\install.esd", "/english"]));
}

#[test]
fn dism_apply_arguments() {
    let c = dism_apply_image("E:\\sources\\install.wim", "F:\\", "2", false);
    assert_eq!(c.program, "Dism.exe");
    assert_eq!(
        c.args,
        owned(&["/Apply-Image", "/ImageFile:E:\\sources\\install.wim", "/ApplyDir:F:", "/Index:2"])
    );
    let c = dism_apply_image("E:\\install.esd", "F:", "1", true);
    assert_eq!(
        c.args,
        owned(&["/Apply-Image", "/ImageFile:E:\\install.esd", "/ApplyDir:F:", "/Index:1", "/compact"])
    );
}

#[test]
fn imagex_and_wimboot_arguments() {
    let c = imagex_apply("C:\\tools\\imagex.exe", "E:\\install.wim", "1", "F:");
    assert_eq!(c.program, "C:\\tools\\imagex.exe");
    assert_eq!(c.args, owned(&["/apply", "E:\\install.wim", "1", "F:"]));
    let w = wimboot_apply("E:\\install.wim", "G:\\", "4", "F:\\");
    assert_eq!(w.len(), 2);
    assert_eq!(
        w[0].args,
        owned(&[
            "/Export-Image",
            "/WIMBoot",
            "/SourceImageFile:E:\\install.wim",
            "/SourceIndex:4",
            "/DestinationImageFile:G:\\wimboot.wim",
        ])
    );
    assert_eq!(
        w[1].args,
        owned(&["/Apply-Image", "/ImageFile:G:\\wimboot.wim", "/ApplyDir:F:", "/Index:4", "/WIMBoot"])
    );
}

#[test]
fn image_apply_picks_the_tool() {
    let w = image_apply(true, false, false, "imagex.exe", "E:\\a.wim", "1", "F:", "G:\\", false);
    assert_eq!(w.len(), 2);
    let d = image_apply(false, true, false, "imagex.exe", "E:\\a.esd", "1", "F:", "G:\\", false);
    assert_eq!(d.len(), 1);
    assert_eq!(d[0].program, "Dism.exe");
    let x = image_apply(false, false, false, "imagex.exe", "E:\\a.wim", "1", "F:", "G:\\", false);
    assert_eq!(x.len(), 1);
    assert_eq!(x[0].program, "imagex.exe");
}

#[test]
fn system_file_to_verify() {
    assert_eq!(verify_system_files("F:"), "F:\\Windows\\system32\\ntoskrnl.exe");
}

#[test]
fn dotnet_source_from_image_path() {
    assert_eq!(sxs_source("E:\\sources\\install.wim"), "E:\\sources\\sxs");
    assert_eq!(sxs_source("short.wim"), "");
    assert!(sxs_source_available(true, "E:\\sources\\install.wim"));
    assert!(sxs_source_available(false, "x"));
}

#[test]
fn extra_plan_follows_settings() {
    let p = image_extra(
        true,
        true,
        false,
        true,
        true,
        "F:\\",
        "E:\\sources\\install.wim",
        "C:\\app",
        Some("D:\\drivers"),
    );
    let a = p.add_drivers.expect("drivers");
    assert_eq!(a.args, owned(&["/image:F:", "/add-driver", "/driver:D:\\drivers", "/recurse", "/ForceUnsigned"]));
    let u = p.disable_uasp.expect("uasp");
    assert_eq!(u.program, "C:\\app\\UASP\\UASP.EXE");
    assert_eq!(u.args, owned(&["F:", "F:"]));
    let n = p.enable_dotnet35.expect("dotnet");
    assert_eq!(
        n.args,
        owned(&["/image:F:", "/enable-feature", "/featurename:NetFX3", "/source:E:\\sources\\sxs"])
    );
    let s = p.san_policy.expect("san");
    assert_eq!(s.args, owned(&["/image:F:", "/Apply-Unattend:", "\"C:\\app\\san_policy.xml\""]));
    assert_eq!(p.unattend_dir, Some("F:\\\\Windows\\System32\\sysprep\\".to_string()));
    let q = image_extra(false, false, false, false, false, "F:", "x", "C:\\app", None);
    assert!(q.add_drivers.is_none());
    assert!(q.disable_uasp.is_none());
    assert!(q.enable_dotnet35.is_none());
    assert!(q.san_policy.is_none());
    assert!(q.unattend_dir.is_none());
}

#[test]
fn unattend_replaces_every_hash() {
    let t = "<a>#</a><b>#</b>";
    assert_eq!(unattend_xml(t, Some("W"), Some("O"), true, true), "<a>WO</a><b>WO</b>");
    assert_eq!(unattend_xml(t, Some("W"), Some("O"), false, true), "<a>O</a><b>O</b>");
    assert_eq!(unattend_xml(t, None, Some("O"), true, false), "<a></a><b></b>");
}

#[test]
fn image_info_source_by_extension() {
    assert!(matches!(get_image_info("D:\\win.ISO"), ImageInfoSource::Iso));
    match get_image_info("D:\\install.wim") {
        ImageInfoSource::Dism(c) => {
            assert_eq!(c.program, "Dism.exe");
            assert_eq!(c.args, owned(&["/Get-WimInfo", "/WimFile:D:\\install.wim", "/english"]));
        }
        ImageInfoSource::Iso => panic!("not an iso"),
    }
}

#[test]
fn iso_runs_and_files() {
    let c = iso_commands("D:\\win.iso");
    assert_eq!(c.mount.args[2], "Mount-DiskImage -ImagePath 'D:\\win.iso'");
    assert_eq!(c.dismount.args[2], "Dismount-DiskImage -ImagePath 'D:\\win.iso'");
    let f = iso_image_files("  E \r\n").expect("letter");
    assert_eq!(f.wim, "E:\\sources\\install.wim");
    assert_eq!(f.esd, "E:\\sources\\install.esd");
    match iso_image_files("   ") {
        Err(AppError::ImageError(m)) => assert_eq!(m, "Failed to get ISO drive letter"),
        _ => panic!("blank output is an error"),
    }
    match iso_without_image() {
        AppError::ImageError(m) => assert_eq!(m, "Cannot find install.wim or install.esd in ISO"),
        _ => panic!("image error"),
    }
}

#[test]
fn registry_fix_lines() {
    let v = fix_letter("C:", "F:", "C:\\logs");
    assert_eq!(
        v,
        owned(&[
            "reg.exe load HKU\\TEMP F:\\Windows\\System32\\Config\\SYSTEM > \"C:\\logs\\loadreg.log\"",
            "reg.exe unload HKU\\TEMP > \"C:\\logs\\unloadreg.log\"",
        ])
    );
    let p = win7_reg("F:\\", "C:\\app", "C:\\logs");
    assert_eq!(p.load, "reg.exe load HKU\\sys F:\\Windows\\System32\\Config\\SYSTEM > \"C:\\logs\\Win7REGLoad.log\"");
    assert_eq!(p.usb_reg, "C:\\app\\usb.reg");
    assert_eq!(p.import, "reg.exe import \"C:\\app\\usb.reg\"");
    assert_eq!(p.unload, "reg.exe unload HKU\\sys > \"C:\\logs\\Win7REGUnLoad.log\"");
    assert_eq!(p.fix_letter.len(), 2);
}

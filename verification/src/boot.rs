//! Boot-file commands: `bcdboot`, `bcdedit` store fixes and BOOTICE.
//!
//! Each function computes the programs, arguments and paths involved; the
//! caller checks the paths on disk and runs the programs.

use crate::error::{spec_message, AppError};
use crate::models::FirmwareType;
use crate::text::{ends_with, ends_with_chars, push_str, string_of, to_chars};
use crate::util::first_two_chars;
use vstd::prelude::*;

verus! {

/// The views of a list of strings.
pub open spec fn strs(v: Seq<String>) -> Seq<Seq<char>> {
    v.map_values(|s: String| s@)
}

/// One external program run.
pub struct ToolCall {
    pub program: String,
    pub args: Vec<String>,
}

pub open spec fn two(s: Seq<char>) -> Seq<char> {
    if s.len() <= 2 {
        s
    } else {
        s.subrange(0, 2)
    }
}

pub open spec fn fw_flag(fw: FirmwareType) -> Seq<char> {
    match fw {
        FirmwareType::ALL => "all"@,
        FirmwareType::BIOS => "bios"@,
        FirmwareType::UEFI => "uefi"@,
    }
}

/// The `Windows` directory under the source root.
pub open spec fn spec_source_windows(source: Seq<char>) -> Seq<char> {
    if ends_with(source, "\\"@) {
        source + "windows"@
    } else {
        source + "\\windows"@
    }
}

/// Where bcdboot puts the BCD store for the firmware type.
pub open spec fn spec_bcd_path(target: Seq<char>, fw: FirmwareType) -> Seq<char> {
    match fw {
        FirmwareType::UEFI => target + "\\EFI\\Microsoft\\Boot\\BCD"@,
        _ => target + "\\Boot\\BCD"@,
    }
}

/// Where the boot manager lands for the firmware type.
pub open spec fn spec_bootmgr_path(target: Seq<char>, fw: FirmwareType) -> Seq<char> {
    match fw {
        FirmwareType::UEFI => target + "\\EFI\\Microsoft\\Boot\\bootmgfw.efi"@,
        _ => target + "\\bootmgr"@,
    }
}

/// Everything a bcdboot run involves.
pub struct BcdbootPlan {
    /// `<source>\windows`, which must exist.
    pub source_windows: String,
    /// The target partition (`E:`), which must exist and be writable.
    pub target: String,
    /// Probe file written to test that the target is writable.
    pub test_file: String,
    /// Arguments of `bcdboot.exe`.
    pub args: Vec<String>,
    /// BCD store that must exist after the run.
    pub bcd_path: String,
    /// Boot manager reported alongside a missing store.
    pub bootmgr_path: String,
}

pub open spec fn spec_bcdboot_args(source: Seq<char>, target: Seq<char>, fw: FirmwareType) -> Seq<
    Seq<char>,
> {
    seq![
        spec_source_windows(source),
        "/s"@,
        two(target),
        "/f"@,
        fw_flag(fw),
        "/l"@,
        "zh-CN"@,
        "/v"@,
    ]
}

fn fw_flag_str(fw: FirmwareType) -> (r: String)
    ensures
        r@ == fw_flag(fw),
{
    match fw {
        FirmwareType::ALL => string_of("all"),
        FirmwareType::BIOS => string_of("bios"),
        FirmwareType::UEFI => string_of("uefi"),
    }
}

fn concat(a: &str, b: &str) -> (r: String)
    ensures
        r@ == a@ + b@,
{
    let mut s = string_of(a);
    push_str(&mut s, b);
    s
}

fn concat3(a: &str, b: &str, c: &str) -> (r: String)
    ensures
        r@ == a@ + b@ + c@,
{
    let mut s = string_of(a);
    push_str(&mut s, b);
    push_str(&mut s, c);
    s
}

/// `<source>\windows`, without doubling a trailing backslash.
pub fn source_windows_dir(source_disk: &str) -> (r: String)
    ensures
        r@ == spec_source_windows(source_disk@),
{
    let s = to_chars(source_disk);
    let bs = to_chars("\\");
    if ends_with_chars(s.as_slice(), bs.as_slice()) {
        concat(source_disk, "windows")
    } else {
        concat(source_disk, "\\windows")
    }
}

/// The BCD store path that bcdboot writes for the firmware type.
pub fn bcd_store_path(target: &str, fw_type: FirmwareType) -> (r: String)
    ensures
        r@ == spec_bcd_path(target@, fw_type),
{
    match fw_type {
        FirmwareType::UEFI => concat(target, "\\EFI\\Microsoft\\Boot\\BCD"),
        _ => concat(target, "\\Boot\\BCD"),
    }
}

/// The boot manager path that bcdboot writes for the firmware type.
pub fn bootmgr_path(target: &str, fw_type: FirmwareType) -> (r: String)
    ensures
        r@ == spec_bootmgr_path(target@, fw_type),
{
    match fw_type {
        FirmwareType::UEFI => concat(target, "\\EFI\\Microsoft\\Boot\\bootmgfw.efi"),
        _ => concat(target, "\\bootmgr"),
    }
}

/// `plan` is the bcdboot run from `source`'s Windows onto `target`.
pub open spec fn is_bcdboot_plan(plan: BcdbootPlan, source: Seq<char>, target: Seq<char>, fw: FirmwareType) -> bool {
    &&& plan.source_windows@ == spec_source_windows(source)
    &&& plan.target@ == two(target)
    &&& plan.test_file@ == two(target) + "\\__test_write_access__.tmp"@
    &&& strs(plan.args@) == spec_bcdboot_args(source, target, fw)
    &&& plan.bcd_path@ == spec_bcd_path(two(target), fw)
    &&& plan.bootmgr_path@ == spec_bootmgr_path(two(target), fw)
}

/// Plans a bcdboot run that copies the boot files of `source_disk`'s
/// Windows installation to the partition `target_disk` names.
pub fn bcdboot_write_boot_file(source_disk: &str, target_disk: &str, fw_type: FirmwareType) -> (r:
    BcdbootPlan)
    ensures
        is_bcdboot_plan(r, source_disk@, target_disk@, fw_type),
{
    let target = first_two_chars(target_disk);
    let source_windows = source_windows_dir(source_disk);
    let mut args: Vec<String> = Vec::new();
    args.push(source_windows.clone());
    args.push(string_of("/s"));
    args.push(string_of(target));
    args.push(string_of("/f"));
    args.push(fw_flag_str(fw_type));
    args.push(string_of("/l"));
    args.push(string_of("zh-CN"));
    args.push(string_of("/v"));
    assert(strs(args@) =~= spec_bcdboot_args(source_disk@, target_disk@, fw_type));
    BcdbootPlan {
        source_windows,
        target: string_of(target),
        test_file: concat(target, "\\__test_write_access__.tmp"),
        args,
        bcd_path: bcd_store_path(target, fw_type),
        bootmgr_path: bootmgr_path(target, fw_type),
    }
}

/// The checks before bcdboot runs, in order: the source's Windows folder,
/// the target partition, and a probe write to it (`write_error` is the
/// text of the failed probe write).
pub fn bcdboot_precheck(
    plan: &BcdbootPlan,
    source_exists: bool,
    target_exists: bool,
    write_error: Option<&str>,
) -> (r: Result<(), AppError>)
    ensures
        !source_exists ==> (r matches Err(AppError::CommandFailed(m)) && m@
            == "Source Windows path not found: "@ + plan.source_windows@ + ". Cannot run bcdboot."@),
        source_exists && !target_exists ==> (r matches Err(AppError::CommandFailed(m)) && m@
            == "Target partition "@ + plan.target@
            + " is not accessible. Check if it's properly mounted and has read/write permissions."@),
        source_exists && target_exists && write_error is Some ==> (r matches Err(
            AppError::CommandFailed(m),
        ) && m@ == "Cannot write to target partition "@ + plan.target@ + ". Error: "@
            + write_error->0@
            + ". Make sure the partition is formatted, not read-only, and you have administrator permissions."@),
        source_exists && target_exists && write_error is None ==> r is Ok,
{
    if !source_exists {
        return Err(AppError::CommandFailed(
            concat3("Source Windows path not found: ", plan.source_windows.as_str(), ". Cannot run bcdboot."),
        ));
    }
    if !target_exists {
        return Err(AppError::CommandFailed(
            concat3(
                "Target partition ",
                plan.target.as_str(),
                " is not accessible. Check if it's properly mounted and has read/write permissions.",
            ),
        ));
    }
    match write_error {
        Some(e) => {
            let mut m = concat3("Cannot write to target partition ", plan.target.as_str(), ". Error: ");
            push_str(&mut m, e);
            push_str(
                &mut m,
                ". Make sure the partition is formatted, not read-only, and you have administrator permissions.",
            );
            Err(AppError::CommandFailed(m))
        },
        None => Ok(()),
    }
}

/// The result of a bcdboot run: it could not be started, or it left no
/// BCD store where the firmware needs it, or it went through.
pub fn bcdboot_result(plan: &BcdbootPlan, run_error: Option<AppError>, bcd_exists: bool) -> (r: Result<
    (),
    AppError,
>)
    ensures
        run_error matches Some(e) ==> (r matches Err(AppError::CommandFailed(m)) && m@
            == "bcdboot failed: "@ + spec_message(e)),
        run_error is None && !bcd_exists ==> (r matches Err(AppError::CommandFailed(m)) && m@
            == "bcdboot completed but boot files not found at "@ + plan.bcd_path@
            + ". Check if target partition is accessible and has proper permissions."@),
        run_error is None && bcd_exists ==> r is Ok,
{
    match run_error {
        Some(e) => {
            let t = e.message();
            Err(AppError::CommandFailed(concat("bcdboot failed: ", t.as_str())))
        },
        None => if bcd_exists {
            Ok(())
        } else {
            Err(AppError::CommandFailed(
                concat3(
                    "bcdboot completed but boot files not found at ",
                    plan.bcd_path.as_str(),
                    ". Check if target partition is accessible and has proper permissions.",
                ),
            ))
        },
    }
}

/// bcdedit runs that fix a BCD store, once the store exists
/// (`bcdedit_runs` gives the runs for whether it does).
pub struct BcdeditPlan {
    /// The store (`<bcd disk><\EFI\Microsoft\Boot\BCD | \Boot\BCD>`); when it
    /// does not exist, nothing is run.
    pub store: String,
    /// Arguments of each `bcdedit.exe` run, in order.
    pub commands: Vec<Vec<String>>,
}

/// The store path a fix works on: the firmware's store on the BCD disk.
pub open spec fn spec_fix_store(bcd_disk: Seq<char>, fw: FirmwareType) -> Seq<char> {
    match fw {
        FirmwareType::UEFI => two(bcd_disk) + "\\EFI\\Microsoft\\Boot\\BCD"@,
        _ => two(bcd_disk) + "\\Boot\\BCD"@,
    }
}

pub open spec fn bcdedit_set(store: Seq<char>, entry: Seq<char>, field: Seq<char>, value: Seq<char>) -> Seq<Seq<char>> {
    seq!["/store"@, store, "/set"@, entry, field, value]
}

pub open spec fn cmds(v: Seq<Vec<String>>) -> Seq<Seq<Seq<char>>> {
    v.map_values(|c: Vec<String>| strs(c@))
}

fn bcdedit_set_args(store: &str, entry: &str, field: &str, value: &str) -> (r: Vec<String>)
    ensures
        strs(r@) == bcdedit_set(store@, entry@, field@, value@),
{
    let mut v: Vec<String> = Vec::new();
    v.push(string_of("/store"));
    v.push(string_of(store));
    v.push(string_of("/set"));
    v.push(string_of(entry));
    v.push(string_of(field));
    v.push(string_of(value));
    assert(strs(v@) =~= bcdedit_set(store@, entry@, field@, value@));
    v
}

fn fix_store_path(bcd_disk: &str, fw_type: FirmwareType) -> (r: String)
    ensures
        r@ == spec_fix_store(bcd_disk@, fw_type),
{
    let d = first_two_chars(bcd_disk);
    match fw_type {
        FirmwareType::UEFI => concat(d, "\\EFI\\Microsoft\\Boot\\BCD"),
        _ => concat(d, "\\Boot\\BCD"),
    }
}

/// `plan` fixes the store on `bcd_disk` for a system applied to `osdevice`.
pub open spec fn is_bcdedit_typical_plan(plan: BcdeditPlan, bcd_disk: Seq<char>, osdevice: Seq<char>, fw_type: FirmwareType) -> bool {
    &&& plan.store@ == spec_fix_store(bcd_disk, fw_type)
    &&& cmds(plan.commands@) == seq![
            bcdedit_set(spec_fix_store(bcd_disk, fw_type), "{bootmgr}"@, "device"@, "partition="@ + two(bcd_disk)),
            bcdedit_set(spec_fix_store(bcd_disk, fw_type), "{default}"@, "device"@, "partition="@ + two(osdevice)),
            bcdedit_set(spec_fix_store(bcd_disk, fw_type), "{default}"@, "osdevice"@, "partition="@ + two(osdevice)),
        ]
}

/// Plans the fix of a BCD store for a directly applied system: the boot
/// manager lives on `bcd_disk`, the default entry boots `osdevice`.
pub fn bcdedit_fix_boot_file_typical(bcd_disk: &str, osdevice: &str, fw_type: FirmwareType) -> (r:
    BcdeditPlan)
    ensures
        is_bcdedit_typical_plan(r, bcd_disk@, osdevice@, fw_type),
{
    let store = fix_store_path(bcd_disk, fw_type);
    let boot_dev = concat("partition=", first_two_chars(bcd_disk));
    let os_dev = concat("partition=", first_two_chars(osdevice));
    let mut commands: Vec<Vec<String>> = Vec::new();
    commands.push(bcdedit_set_args(store.as_str(), "{bootmgr}", "device", boot_dev.as_str()));
    commands.push(bcdedit_set_args(store.as_str(), "{default}", "device", os_dev.as_str()));
    commands.push(bcdedit_set_args(store.as_str(), "{default}", "osdevice", os_dev.as_str()));
    let ghost expect = seq![
        bcdedit_set(
            spec_fix_store(bcd_disk@, fw_type),
            "{bootmgr}"@,
            "device"@,
            "partition="@ + two(bcd_disk@),
        ),
        bcdedit_set(
            spec_fix_store(bcd_disk@, fw_type),
            "{default}"@,
            "device"@,
            "partition="@ + two(osdevice@),
        ),
        bcdedit_set(
            spec_fix_store(bcd_disk@, fw_type),
            "{default}"@,
            "osdevice"@,
            "partition="@ + two(osdevice@),
        ),
    ];
    assert(cmds(commands@) =~= expect);
    BcdeditPlan { store, commands }
}

/// The device a VHD boot entry points at: `vhd=[<os drive>]\<file>`.
pub open spec fn spec_vhd_device(osdevice: Seq<char>, vhd_filename: Seq<char>) -> Seq<char> {
    "vhd=["@ + two(osdevice) + "]\\"@ + vhd_filename
}

/// `plan` fixes the store on `bcd_disk` for a system in the virtual disk
/// `vhd_filename` on `osdevice`.
pub open spec fn is_bcdedit_vhd_plan(plan: BcdeditPlan, bcd_disk: Seq<char>, osdevice: Seq<char>, vhd_filename: Seq<char>, fw_type: FirmwareType) -> bool {
    &&& plan.store@ == spec_fix_store(bcd_disk, fw_type)
    &&& cmds(plan.commands@) == seq![
            bcdedit_set(spec_fix_store(bcd_disk, fw_type), "{bootmgr}"@, "device"@, "partition="@ + two(bcd_disk)),
            bcdedit_set(spec_fix_store(bcd_disk, fw_type), "{default}"@, "device"@, spec_vhd_device(osdevice, vhd_filename)),
            bcdedit_set(spec_fix_store(bcd_disk, fw_type), "{default}"@, "osdevice"@, spec_vhd_device(osdevice, vhd_filename)),
        ]
}

/// Plans the fix of a BCD store whose default entry boots a VHD file that
/// lies on `osdevice`.
pub fn bcdedit_fix_boot_file_vhd(
    bcd_disk: &str,
    osdevice: &str,
    vhd_filename: &str,
    fw_type: FirmwareType,
) -> (r: BcdeditPlan)
    ensures
        is_bcdedit_vhd_plan(r, bcd_disk@, osdevice@, vhd_filename@, fw_type),
{
    let store = fix_store_path(bcd_disk, fw_type);
    let boot_dev = concat("partition=", first_two_chars(bcd_disk));
    let mut vhd_dev = concat3("vhd=[", first_two_chars(osdevice), "]\\");
    push_str(&mut vhd_dev, vhd_filename);
    let mut commands: Vec<Vec<String>> = Vec::new();
    commands.push(bcdedit_set_args(store.as_str(), "{bootmgr}", "device", boot_dev.as_str()));
    commands.push(bcdedit_set_args(store.as_str(), "{default}", "device", vhd_dev.as_str()));
    commands.push(bcdedit_set_args(store.as_str(), "{default}", "osdevice", vhd_dev.as_str()));
    let ghost expect = seq![
        bcdedit_set(
            spec_fix_store(bcd_disk@, fw_type),
            "{bootmgr}"@,
            "device"@,
            "partition="@ + two(bcd_disk@),
        ),
        bcdedit_set(
            spec_fix_store(bcd_disk@, fw_type),
            "{default}"@,
            "device"@,
            spec_vhd_device(osdevice@, vhd_filename@),
        ),
        bcdedit_set(
            spec_fix_store(bcd_disk@, fw_type),
            "{default}"@,
            "osdevice"@,
            spec_vhd_device(osdevice@, vhd_filename@),
        ),
    ];
    assert(cmds(commands@) =~= expect);
    BcdeditPlan { store, commands }
}

pub open spec fn bootice_args(target: Seq<char>, tail: Seq<Seq<char>>) -> Seq<Seq<char>> {
    seq!["/DEVICE="@ + two(target)] + tail
}

/// BOOTICE run that writes an NT6 master boot record; skipped when the
/// program is missing.
pub fn bootice_mbr(target_disk: &str, app_files_path: &str) -> (r: ToolCall)
    ensures
        r.program@ == app_files_path@ + "\\BOOTICE.exe"@,
        strs(r.args@) == bootice_args(
            target_disk@,
            seq!["/mbr"@, "/install"@, "/type=nt60"@, "/quiet"@],
        ),
{
    let program = concat(app_files_path, "\\BOOTICE.exe");
    let mut args: Vec<String> = Vec::new();
    args.push(concat("/DEVICE=", first_two_chars(target_disk)));
    args.push(string_of("/mbr"));
    args.push(string_of("/install"));
    args.push(string_of("/type=nt60"));
    args.push(string_of("/quiet"));
    assert(strs(args@) =~= bootice_args(
        target_disk@,
        seq!["/mbr"@, "/install"@, "/type=nt60"@, "/quiet"@],
    ));
    ToolCall { program, args }
}

/// BOOTICE run that writes a bootmgr partition boot record; skipped when
/// the program is missing.
pub fn bootice_pbr(target_disk: &str, app_files_path: &str) -> (r: ToolCall)
    ensures
        r.program@ == app_files_path@ + "\\BOOTICE.exe"@,
        strs(r.args@) == bootice_args(
            target_disk@,
            seq!["/pbr"@, "/install"@, "/type=bootmgr"@, "/quiet"@],
        ),
{
    let program = concat(app_files_path, "\\BOOTICE.exe");
    let mut args: Vec<String> = Vec::new();
    args.push(concat("/DEVICE=", first_two_chars(target_disk)));
    args.push(string_of("/pbr"));
    args.push(string_of("/install"));
    args.push(string_of("/type=bootmgr"));
    args.push(string_of("/quiet"));
    assert(strs(args@) =~= bootice_args(
        target_disk@,
        seq!["/pbr"@, "/install"@, "/type=bootmgr"@, "/quiet"@],
    ));
    ToolCall { program, args }
}

/// BOOTICE run that marks the partition active; skipped when the program
/// (here looked up as `bootice.exe`) is missing.
pub fn bootice_act(target_disk: &str, app_files_path: &str) -> (r: ToolCall)
    ensures
        r.program@ == app_files_path@ + "\\bootice.exe"@,
        strs(r.args@) == bootice_args(
            target_disk@,
            seq!["/partitions"@, "/activate"@, "/quiet"@],
        ),
{
    let program = concat(app_files_path, "\\bootice.exe");
    let mut args: Vec<String> = Vec::new();
    args.push(concat("/DEVICE=", first_two_chars(target_disk)));
    args.push(string_of("/partitions"));
    args.push(string_of("/activate"));
    args.push(string_of("/quiet"));
    assert(strs(args@) =~= bootice_args(
        target_disk@,
        seq!["/partitions"@, "/activate"@, "/quiet"@],
    ));
    ToolCall { program, args }
}

/// `calls` are the three BOOTICE runs (MBR, PBR, activate) on `target`.
pub open spec fn is_bootice_calls(calls: Seq<ToolCall>, target: Seq<char>, app_files_path: Seq<char>) -> bool {
    &&& calls.len() == 3
    &&& calls[0].program@ == app_files_path + "\\BOOTICE.exe"@
    &&& strs(calls[0].args@) == bootice_args(target, seq!["/mbr"@, "/install"@, "/type=nt60"@, "/quiet"@])
    &&& calls[1].program@ == app_files_path + "\\BOOTICE.exe"@
    &&& strs(calls[1].args@) == bootice_args(target, seq!["/pbr"@, "/install"@, "/type=bootmgr"@, "/quiet"@])
    &&& calls[2].program@ == app_files_path + "\\bootice.exe"@
    &&& strs(calls[2].args@) == bootice_args(target, seq!["/partitions"@, "/activate"@, "/quiet"@])
}

/// The three BOOTICE runs (MBR, PBR, activate), in order. Each is made only
/// where its program exists and how it went is not looked at, so writing
/// the boot records always succeeds (`runs_if_present` picks the runs).
pub fn bootice_write_mbr_pbr_and_act(target_disk: &str, app_files_path: &str) -> (r: Vec<ToolCall>)
    ensures
        is_bootice_calls(r@, target_disk@, app_files_path@),
{
    let mut v: Vec<ToolCall> = Vec::new();
    v.push(bootice_mbr(target_disk, app_files_path));
    v.push(bootice_pbr(target_disk, app_files_path));
    v.push(bootice_act(target_disk, app_files_path));
    v
}


fn copy_strings(v: &Vec<String>) -> (r: Vec<String>)
    ensures
        strs(r@) == strs(v@),
{
    let mut r: Vec<String> = Vec::new();
    let mut i: usize = 0;
    while i < v.len()
        invariant
            i <= v@.len(),
            strs(r@) == strs(v@).take(i as int),
        decreases v@.len() - i,
    {
        let x = string_of(v[i].as_str());
        let ghost before = r@;
        r.push(x);
        assert(strs(r@) =~= strs(before).push(x@));
        assert(strs(v@).take(i + 1) =~= strs(v@).take(i as int).push(v@[i as int]@));
        i = i + 1;
    }
    assert(strs(v@).take(i as int) =~= strs(v@));
    r
}

/// The bcdedit runs a fix carries out: all of them when the store exists,
/// none when it does not (the fix then succeeds without touching anything).
pub open spec fn spec_bcdedit_runs(plan: BcdeditPlan, store_exists: bool) -> Seq<Seq<Seq<char>>> {
    if store_exists {
        cmds(plan.commands@)
    } else {
        Seq::empty()
    }
}

/// The `bcdedit.exe` runs of a planned fix, given whether its store exists
/// on disk. The fix always ends well; how each run went is not looked at.
pub fn bcdedit_runs(plan: &BcdeditPlan, store_exists: bool) -> (r: Vec<Vec<String>>)
    ensures
        cmds(r@) == spec_bcdedit_runs(*plan, store_exists),
{
    let mut r: Vec<Vec<String>> = Vec::new();
    if !store_exists {
        assert(cmds(r@) =~= Seq::<Seq<Seq<char>>>::empty());
        return r;
    }
    let mut i: usize = 0;
    while i < plan.commands.len()
        invariant
            i <= plan.commands@.len(),
            cmds(r@) == cmds(plan.commands@).take(i as int),
        decreases plan.commands@.len() - i,
    {
        let x = copy_strings(&plan.commands[i]);
        let ghost before = r@;
        r.push(x);
        assert(cmds(r@) =~= cmds(before).push(strs(x@)));
        assert(cmds(plan.commands@).take(i + 1) =~= cmds(plan.commands@).take(i as int).push(
            strs(plan.commands@[i as int]@),
        ));
        i = i + 1;
    }
    assert(cmds(plan.commands@).take(i as int) =~= cmds(plan.commands@));
    r
}

/// A run as its program and arguments.
pub open spec fn call_view(c: ToolCall) -> (Seq<char>, Seq<Seq<char>>) {
    (c.program@, strs(c.args@))
}

/// The runs whose program is present, in order.
pub open spec fn present_calls(
    calls: Seq<(Seq<char>, Seq<Seq<char>>)>,
    present: Seq<bool>,
) -> Seq<(Seq<char>, Seq<Seq<char>>)>
    decreases calls.len(),
{
    if calls.len() == 0 || present.len() == 0 {
        Seq::empty()
    } else {
        let prev = present_calls(calls.drop_last(), present.drop_last());
        if present.last() {
            prev.push(calls.last())
        } else {
            prev
        }
    }
}

/// The runs to make of `calls`, given whether each program exists: those
/// whose program is missing are skipped. The step always ends well; how each
/// run went is not looked at (as with the BOOTICE runs).
pub fn runs_if_present(calls: &Vec<ToolCall>, present: &Vec<bool>) -> (r: Vec<ToolCall>)
    requires
        calls@.len() == present@.len(),
    ensures
        r@.map_values(|c: ToolCall| call_view(c)) == present_calls(
            calls@.map_values(|c: ToolCall| call_view(c)),
            present@,
        ),
{
    let ghost cv = calls@.map_values(|c: ToolCall| call_view(c));
    let mut r: Vec<ToolCall> = Vec::new();
    let mut i: usize = 0;
    while i < calls.len()
        invariant
            i <= calls@.len(),
            calls@.len() == present@.len(),
            cv == calls@.map_values(|c: ToolCall| call_view(c)),
            r@.map_values(|c: ToolCall| call_view(c)) == present_calls(
                cv.take(i as int),
                present@.take(i as int),
            ),
        decreases calls@.len() - i,
    {
        assert(cv.take(i + 1).drop_last() =~= cv.take(i as int));
        assert(present@.take(i + 1).drop_last() =~= present@.take(i as int));
        if present[i] {
            let c = ToolCall { program: string_of(calls[i].program.as_str()), args: copy_strings(&calls[i].args) };
            let ghost before = r@.map_values(|c: ToolCall| call_view(c));
            r.push(c);
            assert(r@.map_values(|c: ToolCall| call_view(c)) =~= before.push(cv[i as int]));
        }
        i = i + 1;
    }
    assert(cv.take(i as int) =~= cv);
    assert(present@.take(i as int) =~= present@);
    r
}


/// A VHD boot fix points the default entry at the virtual disk file, not at
/// a bare partition: its device and osdevice values read
/// `vhd=[<drive of osdevice>]\<file>`, so they start with `vhd=[` and end
/// with the file name; the boot manager stays on the BCD disk's partition.
pub proof fn law_vhd_fix_points_at_file(
    plan: BcdeditPlan,
    bcd_disk: Seq<char>,
    osdevice: Seq<char>,
    vhd_filename: Seq<char>,
    fw_type: FirmwareType,
)
    requires
        is_bcdedit_vhd_plan(plan, bcd_disk, osdevice, vhd_filename, fw_type),
    ensures
        cmds(plan.commands@).len() == 3,
        cmds(plan.commands@)[0][5] == "partition="@ + two(bcd_disk),
        cmds(plan.commands@)[1][3] == "{default}"@ && cmds(plan.commands@)[1][4] == "device"@,
        cmds(plan.commands@)[2][3] == "{default}"@ && cmds(plan.commands@)[2][4] == "osdevice"@,
        forall|k: int|
            1 <= k < 3 ==> {
                &&& (#[trigger] cmds(plan.commands@)[k])[5] == "vhd=["@ + two(osdevice) + "]\\"@
                    + vhd_filename
                &&& cmds(plan.commands@)[k][5].take(5) == "vhd=["@
                &&& ends_with(cmds(plan.commands@)[k][5], vhd_filename)
            },
{
    reveal_strlit("vhd=[");
    let v = "vhd=["@ + two(osdevice) + "]\\"@ + vhd_filename;
    assert(v.take(5) =~= "vhd=["@);
    assert(v.subrange(v.len() - vhd_filename.len(), v.len() as int) =~= vhd_filename);
}


/// A direct (non-VHD) boot fix keeps the boot manager on the BCD disk's
/// partition and points the default entry's device and osdevice at the
/// applied system's partition, all in the firmware's store on the BCD disk.
pub proof fn law_typical_fix_points_at_partitions(
    plan: BcdeditPlan,
    bcd_disk: Seq<char>,
    osdevice: Seq<char>,
    fw_type: FirmwareType,
)
    requires
        is_bcdedit_typical_plan(plan, bcd_disk, osdevice, fw_type),
    ensures
        cmds(plan.commands@).len() == 3,
        forall|k: int| 0 <= k < 3 ==> (#[trigger] cmds(plan.commands@)[k])[1] == plan.store@,
        fw_type == FirmwareType::UEFI ==> plan.store@ == two(bcd_disk) + "\\EFI\\Microsoft\\Boot\\BCD"@,
        fw_type != FirmwareType::UEFI ==> plan.store@ == two(bcd_disk) + "\\Boot\\BCD"@,
        cmds(plan.commands@)[0][3] == "{bootmgr}"@,
        cmds(plan.commands@)[0][5] == "partition="@ + two(bcd_disk),
        cmds(plan.commands@)[1][5] == "partition="@ + two(osdevice),
        cmds(plan.commands@)[2][4] == "osdevice"@,
        cmds(plan.commands@)[2][5] == "partition="@ + two(osdevice),
{
}

} // verus!

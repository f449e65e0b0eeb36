//! Boot repair of an installed Windows To Go drive: which drive and firmware
//! the request names, and which boot-file steps run in which order.

use crate::error::AppError;
use crate::models::FirmwareType;
use crate::text::{
    ascii_lower, ascii_upper, is_alpha, push_chars, push_str, string_of, to_chars, trim,
    trim_chars, upper_char, upper_char_exec, upper_chars, chars_eq, lower_chars,
};
use vstd::prelude::*;

verus! {

/// `s` without trailing copies of `c` (`trim_end_matches`).
pub open spec fn strip_trailing(s: Seq<char>, c: char) -> Seq<char>
    decreases s.len(),
{
    if s.len() > 0 && s.last() == c {
        strip_trailing(s.drop_last(), c)
    } else {
        s
    }
}

fn strip_trailing_chars(s: &Vec<char>, c: char) -> (r: Vec<char>)
    ensures
        r@ == strip_trailing(s@, c),
{
    let mut n = s.len();
    assert(s@.take(n as int) =~= s@);
    while n > 0 && s[n - 1] == c
        invariant
            n <= s@.len(),
            strip_trailing(s@, c) == strip_trailing(s@.take(n as int), c),
        decreases n,
    {
        assert(s@.take(n - 1) =~= s@.take(n as int).drop_last());
        n = n - 1;
    }
    let mut r: Vec<char> = Vec::new();
    let mut i: usize = 0;
    while i < n
        invariant
            i <= n <= s@.len(),
            r@ == s@.take(i as int),
        decreases n - i,
    {
        r.push(s[i]);
        i = i + 1;
        assert(r@ =~= s@.take(i as int));
    }
    proof {
        assert(strip_trailing(s@.take(n as int), c) == s@.take(n as int));
    }
    r
}

/// The drive text without surrounding blanks and trailing separators.
pub open spec fn drive_stem(input: Seq<char>) -> Seq<char> {
    strip_trailing(strip_trailing(trim(input), '\\'), '/')
}

/// The root a boot repair request names: `E`, `e:` and `E:\` all give `E:\`.
pub open spec fn spec_drive_root_result(input: Seq<char>) -> Result<Seq<char>, Seq<char>> {
    let t = drive_stem(input);
    if t.len() == 0 {
        Err("Drive letter is required, e.g. E or E:"@)
    } else if !is_alpha(t[0]) {
        Err("Drive letter must start with A-Z"@)
    } else {
        Ok(seq![upper_char(t[0])] + ":\\"@)
    }
}

/// Normalizes a drive given as `E`, `E:` or `E:\` to `E:\`.
pub fn normalize_drive_root(input: &str) -> (r: Result<String, AppError>)
    ensures
        spec_drive_root_result(input@) matches Ok(root) ==> (r matches Ok(s) && s@ == root),
        spec_drive_root_result(input@) matches Err(m) ==> (r matches Err(AppError::InvalidParameter(
            e,
        )) && e@ == m),
{
    let t0 = trim_chars(to_chars(input).as_slice());
    let t1 = strip_trailing_chars(&t0, '\\');
    let t = strip_trailing_chars(&t1, '/');
    if t.len() == 0 {
        return Err(AppError::InvalidParameter(string_of("Drive letter is required, e.g. E or E:")));
    }
    let c = t[0];
    let alpha = ('a' <= c && c <= 'z') || ('A' <= c && c <= 'Z');
    if !alpha {
        return Err(AppError::InvalidParameter(string_of("Drive letter must start with A-Z")));
    }
    let up = [upper_char_exec(c)];
    let mut r = String::new();
    push_chars(&mut r, &up);
    push_str(&mut r, ":\\");
    assert(r@ =~= seq![upper_char(c)] + ":\\"@);
    Ok(r)
}

/// The firmware a request names, case and blanks ignored.
pub open spec fn spec_firmware_name(input: Seq<char>) -> Option<FirmwareType> {
    let t = ascii_lower(trim(input));
    if t == "uefi"@ {
        Some(FirmwareType::UEFI)
    } else if t == "bios"@ {
        Some(FirmwareType::BIOS)
    } else if t == "all"@ {
        Some(FirmwareType::ALL)
    } else {
        None
    }
}

fn lit_eq(s: &Vec<char>, lit: &str) -> (r: bool)
    ensures
        r == (s@ == lit@),
{
    let l = to_chars(lit);
    chars_eq(s.as_slice(), l.as_slice())
}

/// Parses `uefi`, `bios` or `all`.
pub fn parse_firmware(input: &str) -> (r: Result<FirmwareType, AppError>)
    ensures
        spec_firmware_name(input@) matches Some(f) ==> r == Ok::<FirmwareType, AppError>(f),
        spec_firmware_name(input@) is None ==> (r matches Err(AppError::InvalidParameter(e)) && e@
            == "Firmware must be one of: uefi, bios, all"@),
{
    let t = trim_chars(to_chars(input).as_slice());
    let l = lower_chars(t.as_slice());
    if lit_eq(&l, "uefi") {
        Ok(FirmwareType::UEFI)
    } else if lit_eq(&l, "bios") {
        Ok(FirmwareType::BIOS)
    } else if lit_eq(&l, "all") {
        Ok(FirmwareType::ALL)
    } else {
        Err(AppError::InvalidParameter(string_of("Firmware must be one of: uefi, bios, all")))
    }
}

/// The PowerShell expression that prints the disk number of a drive letter.
pub open spec fn disk_number_query_text(letter: char) -> Seq<char> {
    "(Get-Partition -DriveLetter "@ + seq![letter]
        + " -ErrorAction SilentlyContinue | Select-Object -First 1 -ExpandProperty DiskNumber)"@
}

/// The query for the disk that holds `drive_root`; an empty root is refused.
pub fn disk_number_query(drive_root: &str) -> (r: Result<String, AppError>)
    ensures
        drive_root@.len() == 0 ==> (r matches Err(AppError::InvalidParameter(e)) && e@
            == "Invalid target drive"@),
        drive_root@.len() > 0 ==> (r matches Ok(q) && q@ == disk_number_query_text(
            upper_char(drive_root@[0]),
        )),
{
    let cs = to_chars(drive_root);
    if cs.len() == 0 {
        return Err(AppError::InvalidParameter(string_of("Invalid target drive")));
    }
    let up = [upper_char_exec(cs[0])];
    let mut q = string_of("(Get-Partition -DriveLetter ");
    push_chars(&mut q, &up);
    push_str(
        &mut q,
        " -ErrorAction SilentlyContinue | Select-Object -First 1 -ExpandProperty DiskNumber)",
    );
    assert(up@ =~= seq![upper_char(drive_root@[0])]);
    Ok(q)
}

/// The disk number the query printed; nothing printed means the drive was
/// not found.
pub fn disk_number_from_output(drive_root: &str, output: &str) -> (r: Result<String, AppError>)
    ensures
        trim(output@).len() > 0 ==> (r matches Ok(n) && n@ == trim(output@)),
        trim(output@).len() == 0 ==> (r matches Err(AppError::DeviceNotFound(e)) && e@
            == "Cannot resolve disk number for "@ + drive_root@),
{
    let t = trim_chars(to_chars(output).as_slice());
    if t.len() == 0 {
        let mut e = string_of("Cannot resolve disk number for ");
        push_str(&mut e, drive_root);
        return Err(AppError::DeviceNotFound(e));
    }
    let mut n = String::new();
    push_chars(&mut n, t.as_slice());
    Ok(n)
}

/// The target root must exist before anything is written to it.
pub fn check_target_root(target_root: &str, exists: bool) -> (r: Result<(), AppError>)
    ensures
        exists ==> r is Ok,
        !exists ==> (r matches Err(AppError::DeviceNotFound(e)) && e@ == "Target path not found: "@
            + target_root@),
{
    if exists {
        Ok(())
    } else {
        let mut e = string_of("Target path not found: ");
        push_str(&mut e, target_root);
        Err(AppError::DeviceNotFound(e))
    }
}

/// Whether the EFI system partition has to be mounted for the repair.
pub open spec fn spec_needs_esp(fw: FirmwareType) -> bool {
    fw is UEFI || fw is ALL
}

pub fn repair_needs_esp(fw: FirmwareType) -> (r: bool)
    ensures
        r == spec_needs_esp(fw),
{
    match fw {
        FirmwareType::UEFI => true,
        FirmwareType::ALL => true,
        FirmwareType::BIOS => false,
    }
}

/// One step of a boot repair.
pub enum BootRepairStep {
    /// `bcdboot` from the Windows on `source` to the boot files on `target`.
    WriteBootFiles { source: String, target: String, fw: FirmwareType },
    /// Fix the BCD store on `bcd_disk` so that it boots `osdevice`.
    FixBcdStore { bcd_disk: String, osdevice: String, fw: FirmwareType },
}

/// A step, with its texts as character sequences.
pub open spec fn is_step(
    s: BootRepairStep,
    write: bool,
    a: Seq<char>,
    b: Seq<char>,
    fw: FirmwareType,
) -> bool {
    if write {
        s matches BootRepairStep::WriteBootFiles { source, target, fw: f } && source@ == a
            && target@ == b && f == fw
    } else {
        s matches BootRepairStep::FixBcdStore { bcd_disk, osdevice, fw: f } && bcd_disk@ == a
            && osdevice@ == b && f == fw
    }
}

/// The steps for BIOS: boot files and store on the system drive itself.
pub open spec fn bios_steps_at(s: Seq<BootRepairStep>, k: int, root: Seq<char>) -> bool {
    &&& is_step(s[k], true, root, root, FirmwareType::BIOS)
    &&& is_step(s[k + 1], false, root, root, FirmwareType::BIOS)
}

/// The steps for UEFI: boot files and store on the EFI partition.
pub open spec fn uefi_steps_at(s: Seq<BootRepairStep>, k: int, root: Seq<char>, esp: Seq<char>) -> bool {
    &&& is_step(s[k], true, root, esp, FirmwareType::UEFI)
    &&& is_step(s[k + 1], false, esp, root, FirmwareType::UEFI)
}

fn write_step(a: &str, b: &str, fw: FirmwareType) -> (r: BootRepairStep)
    ensures
        is_step(r, true, a@, b@, fw),
{
    BootRepairStep::WriteBootFiles { source: string_of(a), target: string_of(b), fw }
}

fn fix_step(a: &str, b: &str, fw: FirmwareType) -> (r: BootRepairStep)
    ensures
        is_step(r, false, a@, b@, fw),
{
    BootRepairStep::FixBcdStore { bcd_disk: string_of(a), osdevice: string_of(b), fw }
}

/// The steps of a boot repair of `target_root` for `fw`, the EFI partition
/// mounted at `esp` where UEFI is repaired: BIOS first, then UEFI.
pub fn repair_boot_steps(fw: FirmwareType, target_root: &str, esp: Option<&str>) -> (r: Vec<
    BootRepairStep,
>)
    requires
        spec_needs_esp(fw) ==> esp is Some,
    ensures
        fw is BIOS ==> r@.len() == 2 && bios_steps_at(r@, 0, target_root@),
        fw is UEFI ==> r@.len() == 2 && uefi_steps_at(r@, 0, target_root@, esp->0@),
        fw is ALL ==> r@.len() == 4 && bios_steps_at(r@, 0, target_root@) && uefi_steps_at(
            r@,
            2,
            target_root@,
            esp->0@,
        ),
{
    let mut r: Vec<BootRepairStep> = Vec::new();
    match fw {
        FirmwareType::BIOS => {
            r.push(write_step(target_root, target_root, FirmwareType::BIOS));
            r.push(fix_step(target_root, target_root, FirmwareType::BIOS));
        },
        FirmwareType::UEFI => {
            let e = esp.unwrap();
            r.push(write_step(target_root, e, FirmwareType::UEFI));
            r.push(fix_step(e, target_root, FirmwareType::UEFI));
        },
        FirmwareType::ALL => {
            let e = esp.unwrap();
            r.push(write_step(target_root, target_root, FirmwareType::BIOS));
            r.push(fix_step(target_root, target_root, FirmwareType::BIOS));
            r.push(write_step(target_root, e, FirmwareType::UEFI));
            r.push(fix_step(e, target_root, FirmwareType::UEFI));
        },
    }
    r
}

/// The message of a finished repair, naming the firmware as requested, in
/// upper case.
pub fn repair_boot_message(target_root: &str, firmware: &str) -> (r: String)
    ensures
        r@ == "Boot repair completed for "@ + target_root@ + " ("@ + ascii_upper(firmware@)
            + ")"@,
{
    let mut m = string_of("Boot repair completed for ");
    push_str(&mut m, target_root);
    push_str(&mut m, " (");
    let up = upper_chars(to_chars(firmware).as_slice());
    push_chars(&mut m, up.as_slice());
    push_str(&mut m, ")");
    m
}

/// The requested drive and firmware, checked before anything runs.
pub fn repair_boot_request(target_disk: &str, firmware: &str) -> (r: Result<
    (String, FirmwareType),
    AppError,
>)
    ensures
        spec_drive_root_result(target_disk@) matches Err(m) ==> (r matches Err(
            AppError::InvalidParameter(e),
        ) && e@ == m),
        spec_drive_root_result(target_disk@) is Ok && spec_firmware_name(firmware@) is None ==> (r
            matches Err(AppError::InvalidParameter(e)) && e@
            == "Firmware must be one of: uefi, bios, all"@),
        spec_drive_root_result(target_disk@) matches Ok(root) ==> (spec_firmware_name(firmware@)
            matches Some(f) ==> (r matches Ok((s, g)) && s@ == root && g == f)),
{
    match normalize_drive_root(target_disk) {
        Err(e) => Err(e),
        Ok(root) => match parse_firmware(firmware) {
            Err(e) => Err(e),
            Ok(fw) => Ok((root, fw)),
        },
    }
}

/// Boot repair where the platform is not Windows.
pub fn repair_boot_unsupported() -> (r: AppError)
    ensures
        r matches AppError::Unsupported(m) && m@
            == "Boot repair is currently implemented on Windows only"@,
{
    AppError::Unsupported(string_of("Boot repair is currently implemented on Windows only"))
}

/// The hardware overview where the platform is not Windows.
pub fn hardware_overview_unsupported() -> (r: AppError)
    ensures
        r matches AppError::Unsupported(m) && m@
            == "Hardware overview is currently implemented on Windows only"@,
{
    AppError::Unsupported(string_of("Hardware overview is currently implemented on Windows only"))
}

} // verus!

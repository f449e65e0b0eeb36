//! Virtual-disk (VHD/VHDX) installs: where the virtual disk lives, and the
//! diskpart scripts that create, attach and detach it.
//!
//! The functions compute the scripts and paths; the caller runs diskpart and
//! looks at the drive letters.

use crate::boot::{bcdboot_write_boot_file, spec_bcdboot_args, strs, BcdbootPlan};
use crate::error::AppError;
use crate::models::{BootMode, FirmwareType};
use crate::text::{
    decimal, eq_ignore_case, eq_ignore_case_chars, push_decimal, push_str, string_of, to_chars,
};
use vstd::prelude::*;

verus! {

/// Where and how one virtual disk is made.
pub struct VhdOperation {
    pub extension_type: String,
    pub vhd_path: String,
    pub vhd_size: String,
    pub vhd_type: String,
    pub need_copy: bool,
    pub vhd_filename: String,
}

/// Whether the image is itself a virtual disk (`vhd` or `vhdx`, any case).
/// Only the ASCII letters lowercase to `v`, `h`, `d` and `x`, so this is the
/// same as comparing the Unicode lowercase form.
pub open spec fn is_vhd_image_type(image_type: Seq<char>) -> bool {
    eq_ignore_case(image_type, "vhd"@) || eq_ignore_case(image_type, "vhdx"@)
}

fn vhd_image_type(image_type: &str) -> (r: bool)
    ensures
        r == is_vhd_image_type(image_type@),
{
    let t = to_chars(image_type);
    let a = to_chars("vhd");
    let b = to_chars("vhdx");
    eq_ignore_case_chars(t.as_slice(), a.as_slice()) || eq_ignore_case_chars(
        t.as_slice(),
        b.as_slice(),
    )
}

/// Size (MB) of a new virtual disk when the user set none.
pub open spec fn default_vhd_size() -> u32 {
    40960
}

/// The file name of the virtual disk: `<name>.<ext>`.
pub open spec fn spec_vhd_filename(vhd_name: Seq<char>, vhd_ext: Seq<char>) -> Seq<char> {
    vhd_name + "."@ + vhd_ext
}

/// Whether a new virtual disk is built in the temporary directory and copied
/// to the drive afterwards: only for legacy BIOS installs that are neither
/// WIMBoot nor asked to skip the temporary copy.
pub open spec fn spec_need_copy(boot_mode: BootMode, is_wimboot: bool, is_no_temp: bool) -> bool {
    boot_mode == BootMode::NonUefi && !is_wimboot && !is_no_temp
}

impl VhdOperation {
    /// Plans the virtual disk of an install. An image that is already a
    /// virtual disk is used in place and copied; otherwise a new disk
    /// `<vhd_name>.<vhd_ext>` of the user's size (default 40960 MB) is made,
    /// fixed or expandable, either in `vhd_temp_path` (to be copied later) or
    /// directly on the drive `ud`.
    pub fn new(
        image_type: &str,
        image_file_path: &str,
        is_fixed: bool,
        user_set_size: u32,
        ud: &str,
        vhd_temp_path: &str,
        vhd_name: &str,
        vhd_ext: &str,
        boot_mode: &BootMode,
        is_wimboot: bool,
        is_no_temp: bool,
        ntfs_uefi_support: bool,
    ) -> (r: Self)
        ensures
            is_vhd_image_type(image_type@) ==> {
                &&& r.extension_type@ == Seq::<char>::empty()
                &&& r.vhd_path@ == image_file_path@
                &&& r.vhd_size@ == Seq::<char>::empty()
                &&& r.vhd_type@ == Seq::<char>::empty()
                &&& r.need_copy
                &&& r.vhd_filename@ == Seq::<char>::empty()
            },
            !is_vhd_image_type(image_type@) ==> {
                &&& r.extension_type@ == vhd_ext@
                &&& r.vhd_filename@ == spec_vhd_filename(vhd_name@, vhd_ext@)
                &&& r.vhd_size@ == decimal(
                    (if user_set_size != 0 {
                        user_set_size
                    } else {
                        default_vhd_size()
                    }) as nat,
                )
                &&& r.vhd_type@ == (if is_fixed {
                    "fixed"@
                } else {
                    "expandable"@
                })
                &&& r.need_copy == spec_need_copy(*boot_mode, is_wimboot, is_no_temp)
                &&& r.vhd_path@ == (if r.need_copy {
                    vhd_temp_path@ + "\\"@ + spec_vhd_filename(vhd_name@, vhd_ext@)
                } else {
                    ud@ + spec_vhd_filename(vhd_name@, vhd_ext@)
                })
            },
    {
        if vhd_image_type(image_type) {
            return VhdOperation {
                extension_type: String::new(),
                vhd_path: string_of(image_file_path),
                vhd_size: String::new(),
                vhd_type: String::new(),
                need_copy: true,
                vhd_filename: String::new(),
            };
        }
        let vhd_type = if is_fixed {
            string_of("fixed")
        } else {
            string_of("expandable")
        };
        let size: u32 = if user_set_size != 0 {
            user_set_size
        } else {
            40960
        };
        let mut vhd_size = String::new();
        push_decimal(&mut vhd_size, size as u64);
        let is_uefi = match boot_mode {
            BootMode::UefiGpt => true,
            BootMode::UefiMbr => true,
            BootMode::NonUefi => false,
        };
        let mut vhd_filename = string_of(vhd_name);
        push_str(&mut vhd_filename, ".");
        push_str(&mut vhd_filename, vhd_ext);
        let need_copy = !is_uefi && !is_wimboot && !is_no_temp;
        let mut vhd_path = String::new();
        if need_copy {
            push_str(&mut vhd_path, vhd_temp_path);
            push_str(&mut vhd_path, "\\");
        } else {
            push_str(&mut vhd_path, ud);
        }
        push_str(&mut vhd_path, vhd_filename.as_str());
        VhdOperation {
            extension_type: string_of(vhd_ext),
            vhd_path,
            vhd_size,
            vhd_type,
            need_copy,
            vhd_filename,
        }
    }
}

/// `select vdisk file="<path>"` and a line feed.
pub open spec fn select_vdisk(vhd_path: Seq<char>) -> Seq<char> {
    "select vdisk file=\""@ + vhd_path + "\"\n"@
}

/// The diskpart script that makes the virtual disk and mounts its one NTFS
/// partition as `V:`; an existing virtual disk is only attached.
pub open spec fn spec_create_vhd_script(
    vhd_path: Seq<char>,
    vhd_type: Seq<char>,
    vhd_size: Seq<char>,
    image_type: Seq<char>,
    vhd_partition_type: u8,
) -> Seq<char> {
    if is_vhd_image_type(image_type) {
        select_vdisk(vhd_path) + "attach vdisk\nassign letter=v\nexit\n"@
    } else {
        "create vdisk file=\""@ + vhd_path + "\" type="@ + vhd_type + " maximum="@ + vhd_size
            + "\n"@ + select_vdisk(vhd_path) + "attach vdisk\n"@ + (if vhd_partition_type == 1 {
            "convert gpt\n"@
        } else {
            Seq::<char>::empty()
        }) + "create partition primary\nformat fs=ntfs quick\nassign letter=v\nexit\n"@
    }
}

fn push_select_vdisk(s: &mut String, vhd_path: &str)
    ensures
        final(s)@ == old(s)@ + select_vdisk(vhd_path@),
{
    push_str(s, "select vdisk file=\"");
    push_str(s, vhd_path);
    push_str(s, "\"\n");
}

/// The diskpart script of a virtual-disk install (`V:` once it has run).
pub fn create_vhd(
    vhd_path: &str,
    vhd_type: &str,
    vhd_size: &str,
    image_type: &str,
    vhd_partition_type: u8,
) -> (script: String)
    ensures
        script@ == spec_create_vhd_script(
            vhd_path@,
            vhd_type@,
            vhd_size@,
            image_type@,
            vhd_partition_type,
        ),
{
    let mut s = String::new();
    if vhd_image_type(image_type) {
        push_select_vdisk(&mut s, vhd_path);
        push_str(&mut s, "attach vdisk\nassign letter=v\nexit\n");
    } else {
        push_str(&mut s, "create vdisk file=\"");
        push_str(&mut s, vhd_path);
        push_str(&mut s, "\" type=");
        push_str(&mut s, vhd_type);
        push_str(&mut s, " maximum=");
        push_str(&mut s, vhd_size);
        push_str(&mut s, "\n");
        push_select_vdisk(&mut s, vhd_path);
        push_str(&mut s, "attach vdisk\n");
        let ghost before_gpt = s@;
        if vhd_partition_type == 1 {
            push_str(&mut s, "convert gpt\n");
        }
        assert(s@ == before_gpt + (if vhd_partition_type == 1 {
            "convert gpt\n"@
        } else {
            Seq::<char>::empty()
        })) by {
            if vhd_partition_type != 1 {
                assert(s@ =~= before_gpt + Seq::<char>::empty());
            }
        }
        push_str(&mut s, "create partition primary\nformat fs=ntfs quick\nassign letter=v\nexit\n");
    }
    s
}

/// Why `V:` was expected and is missing.
#[derive(Debug, Clone, Copy, PartialEq, Eq, Structural)]
pub enum VhdVolumeStage {
    /// After the creation script.
    Created,
    /// After attaching the copied virtual disk a second time.
    Reattached,
}

/// The message of a missing `V:`.
pub open spec fn missing_volume_message(stage: VhdVolumeStage) -> Seq<char> {
    match stage {
        VhdVolumeStage::Created => "VHD creation failed - V: drive not found"@,
        VhdVolumeStage::Reattached => "Second VHD attach failed"@,
    }
}

/// The check after a script that mounts the virtual disk: `V:` must be there.
pub fn vhd_volume_check(stage: VhdVolumeStage, v_drive_exists: bool) -> (r: Result<(), AppError>)
    ensures
        v_drive_exists ==> r is Ok,
        !v_drive_exists ==> (r matches Err(AppError::DiskError(m)) && m@ == missing_volume_message(
            stage,
        )),
{
    if v_drive_exists {
        Ok(())
    } else {
        match stage {
            VhdVolumeStage::Created => Err(
                AppError::DiskError(string_of("VHD creation failed - V: drive not found")),
            ),
            VhdVolumeStage::Reattached => Err(
                AppError::DiskError(string_of("Second VHD attach failed")),
            ),
        }
    }
}

/// The diskpart script that attaches the virtual disk and gives its first
/// partition the letter `V:`.
pub fn attach_vhd(vhd_path: &str) -> (script: String)
    ensures
        script@ == select_vdisk(vhd_path@) + "attach vdisk\nsel partition 1\nassign letter=v\nexit\n"@,
{
    let mut s = String::new();
    push_select_vdisk(&mut s, vhd_path);
    push_str(&mut s, "attach vdisk\nsel partition 1\nassign letter=v\nexit\n");
    s
}

/// The diskpart script that detaches the virtual disk.
pub fn detach_vhd(vhd_path: &str) -> (script: String)
    ensures
        script@ == select_vdisk(vhd_path@) + "detach vdisk\n"@,
{
    let mut s = String::new();
    push_select_vdisk(&mut s, vhd_path);
    push_str(&mut s, "detach vdisk\n");
    s
}

/// Attaching the copied virtual disk again on the drive, writing its boot
/// files, and detaching it.
pub struct TwiceAttachPlan {
    /// `<ud><vhd_filename>`.
    pub vhd_full_path: String,
    /// Attaches it as `V:` (the path is not quoted).
    pub attach_script: String,
    /// bcdboot from `V:\` to the drive.
    pub boot: BcdbootPlan,
    /// Detaches it afterwards.
    pub detach_script: String,
}

/// `r` attaches `<ud><vhd_filename>` again, writes its boot files (both
/// firmwares when the NTFS partition can boot UEFI, else BIOS) and detaches it.
pub open spec fn is_twice_attach_plan(
    r: TwiceAttachPlan,
    ud: Seq<char>,
    vhd_filename: Seq<char>,
    ntfs_uefi_support: bool,
) -> bool {
    &&& r.vhd_full_path@ == ud + vhd_filename
    &&& r.attach_script@ == "select vdisk file="@ + ud + vhd_filename
        + "\nattach vdisk\nsel partition 1\nassign letter=v\nexit\n"@
    &&& strs(r.boot.args@) == spec_bcdboot_args(
        "V:\\"@,
        ud,
        if ntfs_uefi_support {
            FirmwareType::ALL
        } else {
            FirmwareType::BIOS
        },
    )
    &&& r.boot.source_windows@ == "V:\\windows"@
    &&& r.detach_script@ == select_vdisk(ud + vhd_filename) + "detach vdisk\n"@
}

/// Plans the second attach of a virtual disk copied to the drive `ud`: boot
/// files for both firmwares when the NTFS partition can boot UEFI, else for
/// BIOS only.
pub fn twice_attach_and_write_boot(ud: &str, vhd_filename: &str, ntfs_uefi_support: bool) -> (r:
    TwiceAttachPlan)
    ensures
        is_twice_attach_plan(r, ud@, vhd_filename@, ntfs_uefi_support),
{
    let mut full = string_of(ud);
    push_str(&mut full, vhd_filename);
    let mut attach = string_of("select vdisk file=");
    push_str(&mut attach, full.as_str());
    push_str(&mut attach, "\nattach vdisk\nsel partition 1\nassign letter=v\nexit\n");
    let fw = if ntfs_uefi_support {
        FirmwareType::ALL
    } else {
        FirmwareType::BIOS
    };
    proof {
        reveal_strlit("V:\\");
        reveal_strlit("\\");
        reveal_strlit("windows");
        reveal_strlit("V:\\windows");
        assert("V:\\"@.subrange(2, 3) =~= "\\"@);
        assert("V:\\"@ + "windows"@ =~= "V:\\windows"@);
    }
    let boot = bcdboot_write_boot_file("V:\\", ud, fw);
    let detach_script = detach_vhd(full.as_str());
    assert(attach@ =~= "select vdisk file="@ + ud@ + vhd_filename@
        + "\nattach vdisk\nsel partition 1\nassign letter=v\nexit\n"@);
    assert(boot.source_windows@ =~= "V:\\windows"@);
    TwiceAttachPlan { vhd_full_path: full, attach_script: attach, boot, detach_script }
}

/// A text file to write.
pub struct FileText {
    pub path: String,
    pub contents: String,
}

/// The note left on the drive about a dynamically sized virtual disk:
/// `<ud>VHD_Info.txt`.
pub fn dynamic_size_instruction(ud: &str, vhd_size: &str) -> (r: FileText)
    ensures
        r.path@ == ud@ + "VHD_Info.txt"@,
        r.contents@ == "VHD Dynamic Size: "@ + vhd_size@
            + "MB\nThe VHD will expand to this size after the system boots.\nPlease ensure sufficient space on the USB drive.\n"@,
{
    let mut path = string_of(ud);
    push_str(&mut path, "VHD_Info.txt");
    let mut contents = string_of("VHD Dynamic Size: ");
    push_str(&mut contents, vhd_size);
    push_str(
        &mut contents,
        "MB\nThe VHD will expand to this size after the system boots.\nPlease ensure sufficient space on the USB drive.\n",
    );
    FileText { path, contents }
}

/// Script files of earlier runs left in the temporary directory, and the
/// virtual disks `<vhd_name>.vhd` / `.vhdx` built there.
pub fn temp_files_to_clean(vhd_name: &str) -> (r: Vec<String>)
    ensures
        strs(r@) == seq![
            "create.txt"@,
            "removex.txt"@,
            "detach.txt"@,
            "uefi.txt"@,
            "uefimbr.txt"@,
            "dp.txt"@,
            "attach.txt"@,
            vhd_name@ + ".vhd"@,
            vhd_name@ + ".vhdx"@,
        ],
{
    let mut r: Vec<String> = Vec::new();
    r.push(string_of("create.txt"));
    r.push(string_of("removex.txt"));
    r.push(string_of("detach.txt"));
    r.push(string_of("uefi.txt"));
    r.push(string_of("uefimbr.txt"));
    r.push(string_of("dp.txt"));
    r.push(string_of("attach.txt"));
    let mut a = string_of(vhd_name);
    push_str(&mut a, ".vhd");
    r.push(a);
    let mut b = string_of(vhd_name);
    push_str(&mut b, ".vhdx");
    r.push(b);
    assert(strs(r@) =~= seq![
        "create.txt"@,
        "removex.txt"@,
        "detach.txt"@,
        "uefi.txt"@,
        "uefimbr.txt"@,
        "dp.txt"@,
        "attach.txt"@,
        vhd_name@ + ".vhd"@,
        vhd_name@ + ".vhdx"@,
    ]);
    r
}

// ---------------------------------------------------------------------------
// Finding attached virtual disks in `list vdisk` output
// ---------------------------------------------------------------------------

/// `regex::is_meta_character`: the characters `regex::escape` escapes.
pub open spec fn regex_meta(c: char) -> bool {
    c == '\\' || c == '.' || c == '+' || c == '*' || c == '?' || c == '(' || c == ')' || c
        == '|' || c == '[' || c == ']' || c == '{' || c == '}' || c == '^' || c == '$' || c
        == '#' || c == '&' || c == '-' || c == '~'
}

/// `regex::escape`: a backslash before each meta character.
pub open spec fn regex_escaped(s: Seq<char>) -> Seq<char>
    decreases s.len(),
{
    if s.len() == 0 {
        Seq::empty()
    } else {
        regex_escaped(s.drop_last()) + (if regex_meta(s.last()) {
            seq!['\\', s.last()]
        } else {
            seq![s.last()]
        })
    }
}

/// `regex::escape`, which puts a backslash before each of the characters
/// `\ . + * ? ( ) | [ ] { } ^ $ # & - ~` and copies the others.
#[verifier::external_body]
fn regex_escape(s: &str) -> (r: String)
    ensures
        r@ == regex_escaped(s@),
{
    regex::escape(s)
}

/// What capture group 1 of a pattern holds at each match in a text, in
/// order, or the compile error's text when the pattern is invalid.
pub uninterp spec fn regex_group1_captures(pattern: Seq<char>, text: Seq<char>) -> Result<
    Seq<Seq<char>>,
    Seq<char>,
>;

/// `regex::Regex::new(pattern)`, then group 1 of each item of
/// `captures_iter(text)`; the error's display text when the pattern does not
/// compile. The result is only named here. Indexing group 1 panics where the
/// group takes no part in a match, so the pattern is one of the listing
/// patterns, whose group 1 spans the whole match.
#[verifier::external_body]
fn regex_captures(pattern: &str, text: &str) -> (r: Result<Vec<String>, String>)
    requires
        exists|name: Seq<char>| pattern@ == vhd_listing_pattern(name),
    ensures
        match r {
            Ok(v) => regex_group1_captures(pattern@, text@) == Ok::<Seq<Seq<char>>, Seq<char>>(
                strs(v@),
            ),
            Err(e) => regex_group1_captures(pattern@, text@) == Err::<Seq<Seq<char>>, Seq<char>>(
                e@,
            ),
        },
{
    match regex::Regex::new(pattern) {
        Ok(re) => Ok(re.captures_iter(text).map(|c| c[1].to_string()).collect()),
        Err(e) => Err(e.to_string()),
    }
}

/// The pattern that finds `<letter>:\...\<vhd_name>.vhd(x)` paths, any case.
pub open spec fn vhd_listing_pattern(vhd_name: Seq<char>) -> Seq<char> {
    "(?i)([a-z]:\\\\.*"@ + regex_escaped(vhd_name) + "\\.(vhd|vhdx))"@
}

/// The virtual disks named `<vhd_name>.vhd` / `.vhdx` that diskpart's
/// `list vdisk` output shows attached; each is then detached.
pub fn vhd_detach_targets(vhd_name: &str, list_output: &str) -> (r: Result<Vec<String>, AppError>)
    ensures
        match regex_group1_captures(vhd_listing_pattern(vhd_name@), list_output@) {
            Ok(paths) => r matches Ok(v) && strs(v@) == paths,
            Err(e) => r matches Err(AppError::SystemError(m)) && m@ == e,
        },
{
    let escaped = regex_escape(vhd_name);
    let mut pattern = string_of("(?i)([a-z]:\\\\.*");
    push_str(&mut pattern, escaped.as_str());
    push_str(&mut pattern, "\\.(vhd|vhdx))");
    assert(pattern@ == vhd_listing_pattern(vhd_name@));
    match regex_captures(pattern.as_str(), list_output) {
        Ok(v) => Ok(v),
        Err(e) => Err(AppError::SystemError(e)),
    }
}


/// After the attempts to release it, `V:` must be free for the new disk.
pub fn v_drive_release_check(v_drive_still_exists: bool) -> (r: Result<(), AppError>)
    ensures
        !v_drive_still_exists ==> r is Ok,
        v_drive_still_exists ==> (r matches Err(AppError::DiskError(m)) && m@
            == "Drive letter V: is occupied and cannot be released"@),
{
    if v_drive_still_exists {
        Err(AppError::DiskError(string_of("Drive letter V: is occupied and cannot be released")))
    } else {
        Ok(())
    }
}

/// A virtual disk can only be copied when it exists.
pub fn copy_vhd_check(vhd_exists: bool) -> (r: Result<(), AppError>)
    ensures
        vhd_exists ==> r is Ok,
        !vhd_exists ==> (r matches Err(AppError::DiskError(m)) && m@ == "VHD file not found for copying"@),
{
    if vhd_exists {
        Ok(())
    } else {
        Err(AppError::DiskError(string_of("VHD file not found for copying")))
    }
}

} // verus!

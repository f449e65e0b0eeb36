//! The decisions of the macOS write path around the disk tools: which tools
//! must be present, which partition holds the system and which the EFI
//! files, what a finished boot repair checks, and where images are found.

use crate::error::AppError;
use crate::macos::{
    quoted, repair_bcd_tail, repair_uefi_bcd_store_command, shell_escape_single_quotes,
    shell_escaped, spec_parse_partition_id, stage_payload_tail, stage_uefi_boot_payload_command,
    parse_partition_id,
};
use crate::models::{BootMode, ExtraFeatures, ImageInfo};
use crate::text::{ends_with, join, join_strings, views};
use crate::text::{
    all_digits, ascii_lower, ascii_upper, chars_eq, contains, contains_chars, eq_ignore_case,
    eq_ignore_case_chars, lower_chars, push_chars, push_str, slice_chars, starts_with,
    starts_with_chars, string_of, to_chars, trim, trim_chars, upper_chars, is_digit_char,
};
use vstd::prelude::*;

verus! {

// ---------------------------------------------------------------------------
// Tools the write needs
// ---------------------------------------------------------------------------

/// The probe that `cmd` is on the search path of a login shell with the
/// Homebrew directories in front.
pub fn tool_probe_script(cmd: &str) -> (r: String)
    ensures
        r@ == "export PATH='/opt/homebrew/bin:/opt/homebrew/sbin:/usr/local/bin:/usr/local/sbin:/usr/bin:/bin:/usr/sbin:/sbin:$PATH'; command -v "@
            + cmd@ + " >/dev/null 2>&1"@,
{
    let mut r = string_of(
        "export PATH='/opt/homebrew/bin:/opt/homebrew/sbin:/usr/local/bin:/usr/local/sbin:/usr/bin:/bin:/usr/sbin:/sbin:$PATH'; command -v ",
    );
    push_str(&mut r, cmd);
    push_str(&mut r, " >/dev/null 2>&1");
    r
}

/// Reading WIM/ESD images needs `wimlib-imagex`.
pub fn requires_wimlib(wimlib_present: bool) -> (r: Result<(), AppError>)
    ensures
        wimlib_present ==> r is Ok,
        !wimlib_present ==> (r matches Err(AppError::ImageError(m)) && m@
            == "Missing dependency: wimlib-imagex. Install with: brew install wimlib"@),
{
    if wimlib_present {
        Ok(())
    } else {
        Err(AppError::ImageError(
            string_of("Missing dependency: wimlib-imagex. Install with: brew install wimlib"),
        ))
    }
}

/// Writing NTFS needs `ntfs-3g` and one of `mkntfs` and `mkfs.ntfs`.
pub fn requires_ntfs_tooling(ntfs3g: bool, mkntfs: bool, mkfs_ntfs: bool) -> (r: Result<
    (),
    AppError,
>)
    ensures
        !ntfs3g ==> (r matches Err(AppError::DiskError(m)) && m@
            == "Missing dependency: ntfs-3g. Install with: brew tap gromgit/homebrew-fuse && brew install ntfs-3g-mac"@),
        ntfs3g && !mkntfs && !mkfs_ntfs ==> (r matches Err(AppError::DiskError(m)) && m@
            == "Missing dependency: mkntfs (from ntfs-3g). Install with: brew tap gromgit/homebrew-fuse && brew install ntfs-3g-mac"@),
        ntfs3g && (mkntfs || mkfs_ntfs) ==> r is Ok,
{
    if !ntfs3g {
        return Err(AppError::DiskError(
            string_of(
                "Missing dependency: ntfs-3g. Install with: brew tap gromgit/homebrew-fuse && brew install ntfs-3g-mac",
            ),
        ));
    }
    if !mkntfs && !mkfs_ntfs {
        return Err(AppError::DiskError(
            string_of(
                "Missing dependency: mkntfs (from ntfs-3g). Install with: brew tap gromgit/homebrew-fuse && brew install ntfs-3g-mac",
            ),
        ));
    }
    Ok(())
}

/// The NTFS formatter to use: `mkntfs`, else `mkfs.ntfs`.
pub fn pick_ntfs_mkfs_command(mkntfs: bool, mkfs_ntfs: bool) -> (r: Option<&'static str>)
    ensures
        mkntfs ==> (r matches Some(c) && c@ == "mkntfs"@),
        !mkntfs && mkfs_ntfs ==> (r matches Some(c) && c@ == "mkfs.ntfs"@),
        !mkntfs && !mkfs_ntfs ==> r is None,
{
    if mkntfs {
        Some("mkntfs")
    } else if mkfs_ntfs {
        Some("mkfs.ntfs")
    } else {
        None
    }
}

// ---------------------------------------------------------------------------
// Disk identifiers
// ---------------------------------------------------------------------------

/// A whole-disk identifier (`disk4`, `/dev/disk4`), normalized to `disk4`.
pub open spec fn spec_parse_disk_id(input: Seq<char>) -> Option<Seq<char>> {
    let t = trim(input);
    let w = if starts_with(t, "/dev/"@) {
        t.skip(5)
    } else {
        t
    };
    if starts_with(w, "disk"@) && w.len() > 4 && all_digits(w.skip(4)) {
        Some("disk"@ + w.skip(4))
    } else {
        None
    }
}

/// Parses a whole-disk identifier.
#[verifier::loop_isolation(false)]
pub fn parse_disk_id(input: &str) -> (r: Option<String>)
    ensures
        spec_parse_disk_id(input@) matches Some(d) ==> (r matches Some(s) && s@ == d),
        spec_parse_disk_id(input@) is None ==> r is None,
{
    proof {
        reveal_strlit("/dev/");
        reveal_strlit("disk");
    }
    let t = trim_chars(to_chars(input).as_slice());
    let dev = to_chars("/dev/");
    let w = if starts_with_chars(t.as_slice(), dev.as_slice()) {
        slice_chars(t.as_slice(), 5, t.len())
    } else {
        slice_chars(t.as_slice(), 0, t.len())
    };
    assert(starts_with(t@, "/dev/"@) ==> w@ =~= t@.skip(5));
    assert(!starts_with(t@, "/dev/"@) ==> w@ =~= t@);
    let disk = to_chars("disk");
    if !starts_with_chars(w.as_slice(), disk.as_slice()) || w.len() <= 4 {
        return None;
    }
    let suffix = slice_chars(w.as_slice(), 4, w.len());
    assert(suffix@ =~= w@.skip(4));
    let mut i: usize = 0;
    while i < suffix.len()
        invariant
            i <= suffix@.len(),
            forall|k: int| 0 <= k < i ==> crate::text::is_digit(#[trigger] suffix@[k]),
        decreases suffix@.len() - i,
    {
        if !is_digit_char(suffix[i]) {
            assert(!crate::text::is_digit(suffix@[i as int]));
            assert(!all_digits(suffix@));
            assert(!all_digits(w@.skip(4)));
            return None;
        }
        i = i + 1;
    }
    let mut r = string_of("disk");
    push_chars(&mut r, suffix.as_slice());
    Some(r)
}

// ---------------------------------------------------------------------------
// Paths on macOS
// ---------------------------------------------------------------------------

/// `base` joined with a relative component (`Path::join`).
pub open spec fn path_join(base: Seq<char>, comp: Seq<char>) -> Seq<char> {
    if base.len() == 0 || base.last() == '/' {
        base + comp
    } else {
        base + "/"@ + comp
    }
}

pub fn join_path(base: &str, comp: &str) -> (r: String)
    ensures
        r@ == path_join(base@, comp@),
{
    let b = to_chars(base);
    let mut r = string_of(base);
    if b.len() > 0 && b[b.len() - 1] != '/' {
        push_str(&mut r, "/");
    }
    push_str(&mut r, comp);
    r
}

/// `s` without trailing `/`.
pub open spec fn strip_slashes(s: Seq<char>) -> Seq<char>
    decreases s.len(),
{
    if s.len() > 0 && s.last() == '/' {
        strip_slashes(s.drop_last())
    } else {
        s
    }
}

/// The last component of a path (after trailing slashes are dropped).
pub open spec fn unix_file_name(p: Seq<char>) -> Seq<char>
    decreases p.len(),
{
    unix_tail(strip_slashes(p))
}

pub open spec fn unix_tail(p: Seq<char>) -> Seq<char>
    decreases p.len(),
{
    if p.len() == 0 || p.last() == '/' {
        Seq::<char>::empty()
    } else {
        unix_tail(p.drop_last()).push(p.last())
    }
}

/// Position of the last `.` in `s`.
pub open spec fn last_dot_of(s: Seq<char>) -> Option<int>
    decreases s.len(),
{
    if s.len() == 0 {
        None
    } else if s.last() == '.' {
        Some(s.len() - 1)
    } else {
        last_dot_of(s.drop_last())
    }
}

/// Where a file name splits into stem and extension: at its last dot,
/// unless that dot begins the name or the name is `..`.
pub open spec fn ext_dot(name: Seq<char>) -> Option<int> {
    if name == ".."@ {
        None
    } else {
        match last_dot_of(name) {
            Some(i) => if i > 0 {
                Some(i)
            } else {
                None
            },
            None => None,
        }
    }
}

/// `Path::extension` for a macOS path, in lower case.
pub open spec fn unix_extension_lower(p: Seq<char>) -> Seq<char> {
    let n = unix_file_name(p);
    match ext_dot(n) {
        Some(i) => ascii_lower(n.skip(i + 1)),
        None => Seq::<char>::empty(),
    }
}

/// `Path::file_stem` for a macOS path (`None` for an empty name).
pub open spec fn unix_file_stem(p: Seq<char>) -> Option<Seq<char>> {
    let n = unix_file_name(p);
    if n.len() == 0 {
        None
    } else {
        match ext_dot(n) {
            Some(i) => Some(n.take(i)),
            None => Some(n),
        }
    }
}

fn unix_file_name_chars(p: &Vec<char>) -> (r: Vec<char>)
    ensures
        r@ == unix_file_name(p@),
{
    let mut end = p.len();
    assert(p@.take(end as int) =~= p@);
    while end > 0 && p[end - 1] == '/'
        invariant
            end <= p@.len(),
            strip_slashes(p@) == strip_slashes(p@.take(end as int)),
        decreases end,
    {
        assert(p@.take(end - 1) =~= p@.take(end as int).drop_last());
        end = end - 1;
    }
    let ghost s = p@.take(end as int);
    assert(strip_slashes(s) == s);
    let mut start = end;
    while start > 0 && p[start - 1] != '/'
        invariant
            start <= end <= p@.len(),
            s == p@.take(end as int),
            unix_tail(s) == unix_tail(p@.take(start as int)) + p@.subrange(start as int, end as int),
        decreases start,
    {
        assert(p@.take(start as int).drop_last() =~= p@.take(start - 1));
        assert(p@.subrange(start - 1, end as int) =~= seq![p@[start - 1]] + p@.subrange(
            start as int,
            end as int,
        ));
        start = start - 1;
    }
    assert(unix_tail(p@.take(start as int)) =~= Seq::<char>::empty());
    slice_chars(p.as_slice(), start, end)
}

fn last_dot_index_of(s: &Vec<char>) -> (r: Option<usize>)
    ensures
        match r {
            Some(i) => last_dot_of(s@) == Some(i as int),
            None => last_dot_of(s@) is None,
        },
{
    let mut k = s.len();
    assert(s@.take(k as int) =~= s@);
    while k > 0
        invariant
            k <= s@.len(),
            last_dot_of(s@) == last_dot_of(s@.take(k as int)),
        decreases k,
    {
        assert(s@.take(k - 1) =~= s@.take(k as int).drop_last());
        if s[k - 1] == '.' {
            return Some(k - 1);
        }
        k = k - 1;
    }
    None
}

fn ext_dot_index(n: &Vec<char>) -> (r: Option<usize>)
    ensures
        match r {
            Some(i) => ext_dot(n@) == Some(i as int) && i < n@.len(),
            None => ext_dot(n@) is None,
        },
{
    if chars_eq(n.as_slice(), to_chars("..").as_slice()) {
        return None;
    }
    match last_dot_index_of(n) {
        Some(i) => {
            proof {
                lemma_last_dot_bound(n@);
            }
            if i > 0 {
                Some(i)
            } else {
                None
            }
        },
        None => None,
    }
}

proof fn lemma_last_dot_bound(s: Seq<char>)
    ensures
        last_dot_of(s) matches Some(i) ==> 0 <= i < s.len() && s[i] == '.',
    decreases s.len(),
{
    if s.len() > 0 {
        lemma_last_dot_bound(s.drop_last());
    }
}

/// The lower-case extension of a macOS path (empty if none).
pub fn unix_extension(path: &str) -> (r: Vec<char>)
    ensures
        r@ == unix_extension_lower(path@),
{
    let n = unix_file_name_chars(&to_chars(path));
    match ext_dot_index(&n) {
        Some(i) => {
            assert(i < n.len());
            let e = slice_chars(n.as_slice(), i + 1, n.len());
            assert(e@ =~= n@.skip(i + 1));
            lower_chars(e.as_slice())
        },
        None => Vec::new(),
    }
}

// ---------------------------------------------------------------------------
// Listing the images of a file
// ---------------------------------------------------------------------------

/// Where the images of a file are read from on macOS.
pub enum MacImageSource {
    /// A WIM or ESD file, read by wimlib.
    Wimlib,
    /// An ISO: attach it and read the install image inside with wimlib.
    Iso,
    /// Anything else is written as a single image.
    Single(ImageInfo),
}

pub open spec fn single_image_name(p: Seq<char>) -> Seq<char> {
    match unix_file_stem(p) {
        Some(s) => s,
        None => "Windows Image"@,
    }
}

/// First step of `get_image_info` on macOS: a missing file is an error;
/// `.wim`/`.esd` and `.iso` (any case) are read with wimlib, which must be
/// present; any other file is one image named after the file.
pub fn macos_image_source(image_path: &str, exists: bool, wimlib_present: bool, size: u64) -> (r:
    Result<MacImageSource, AppError>)
    ensures
        !exists ==> (r matches Err(AppError::ImageError(m)) && m@ == "Image file does not exist: "@
            + image_path@),
        exists && (unix_extension_lower(image_path@) == "wim"@ || unix_extension_lower(image_path@)
            == "esd"@ || unix_extension_lower(image_path@) == "iso"@) && !wimlib_present ==> (r
            matches Err(AppError::ImageError(m)) && m@
            == "Missing dependency: wimlib-imagex. Install with: brew install wimlib"@),
        exists && wimlib_present && (unix_extension_lower(image_path@) == "wim"@
            || unix_extension_lower(image_path@) == "esd"@) ==> r matches Ok(MacImageSource::Wimlib),
        exists && wimlib_present && unix_extension_lower(image_path@) == "iso"@ ==> r matches Ok(
            MacImageSource::Iso,
        ),
        exists && unix_extension_lower(image_path@) != "wim"@ && unix_extension_lower(image_path@)
            != "esd"@ && unix_extension_lower(image_path@) != "iso"@ ==> (r matches Ok(
            MacImageSource::Single(i),
        ) && i.index == 1 && i.name@ == single_image_name(image_path@) && i.description@
            == "macOS migration mode: single default image index"@ && i.size == size),
{
    if !exists {
        let mut m = string_of("Image file does not exist: ");
        push_str(&mut m, image_path);
        return Err(AppError::ImageError(m));
    }
    proof {
        reveal_strlit("wim");
        reveal_strlit("esd");
        reveal_strlit("iso");
    }
    let ext = unix_extension(image_path);
    let is_wim = chars_eq(ext.as_slice(), to_chars("wim").as_slice()) || chars_eq(
        ext.as_slice(),
        to_chars("esd").as_slice(),
    );
    let is_iso = chars_eq(ext.as_slice(), to_chars("iso").as_slice());
    assert("wim"@[0] != "iso"@[0] && "esd"@[0] != "iso"@[0]);
    assert(is_wim ==> ext@ != "iso"@);
    if is_wim || is_iso {
        match requires_wimlib(wimlib_present) {
            Ok(()) => {},
            Err(e) => {
                return Err(e);
            },
        }
        if is_wim {
            return Ok(MacImageSource::Wimlib);
        }
        return Ok(MacImageSource::Iso);
    }
    let n = unix_file_name_chars(&to_chars(image_path));
    let name = if n.len() == 0 {
        string_of("Windows Image")
    } else {
        let stem = match ext_dot_index(&n) {
            Some(i) => slice_chars(n.as_slice(), 0, i),
            None => slice_chars(n.as_slice(), 0, n.len()),
        };
        assert(ext_dot(n@) matches Some(i) ==> stem@ =~= n@.take(i));
        assert(ext_dot(n@) is None ==> stem@ =~= n@);
        let mut s = String::new();
        push_chars(&mut s, stem.as_slice());
        s
    };
    Ok(
        MacImageSource::Single(
            ImageInfo {
                index: 1,
                name,
                description: string_of("macOS migration mode: single default image index"),
                size,
            },
        ),
    )
}

/// The images wimlib listed for a WIM/ESD file; none is an error.
pub fn wimlib_images_result(image_path: &str, infos: Vec<ImageInfo>) -> (r: Result<
    Vec<ImageInfo>,
    AppError,
>)
    ensures
        infos@.len() > 0 ==> r == Ok::<Vec<ImageInfo>, AppError>(infos),
        infos@.len() == 0 ==> (r matches Err(AppError::ImageError(m)) && m@
            == "No image index found in "@ + image_path@),
{
    if infos.len() == 0 {
        let mut m = string_of("No image index found in ");
        push_str(&mut m, image_path);
        return Err(AppError::ImageError(m));
    }
    Ok(infos)
}

/// The images wimlib listed for the install image of an ISO; none is an
/// error.
pub fn iso_images_result(infos: Vec<ImageInfo>) -> (r: Result<Vec<ImageInfo>, AppError>)
    ensures
        infos@.len() > 0 ==> r == Ok::<Vec<ImageInfo>, AppError>(infos),
        infos@.len() == 0 ==> (r matches Err(AppError::ImageError(m)) && m@
            == "No image index found in ISO install image"@),
{
    if infos.len() == 0 {
        return Err(AppError::ImageError(string_of("No image index found in ISO install image")));
    }
    Ok(infos)
}

/// The error when an attached ISO holds no install image; listing and
/// writing word it slightly differently.
pub fn iso_install_image_missing(for_listing: bool) -> (r: AppError)
    ensures
        for_listing ==> (r matches AppError::ImageError(m) && m@
            == "Cannot find sources/install.wim or install.esd in ISO"@),
        !for_listing ==> (r matches AppError::ImageError(m) && m@
            == "Cannot find sources/install.wim or sources/install.esd in ISO"@),
{
    if for_listing {
        AppError::ImageError(string_of("Cannot find sources/install.wim or install.esd in ISO"))
    } else {
        AppError::ImageError(
            string_of("Cannot find sources/install.wim or sources/install.esd in ISO"),
        )
    }
}

pub open spec fn source_dir_at(i: int) -> Seq<char> {
    if i == 0 {
        "sources"@
    } else if i == 1 {
        "Sources"@
    } else {
        "SOURCES"@
    }
}

pub open spec fn install_file_at(j: int) -> Seq<char> {
    if j == 0 {
        "install.wim"@
    } else if j == 1 {
        "install.esd"@
    } else if j == 2 {
        "INSTALL.WIM"@
    } else {
        "INSTALL.ESD"@
    }
}

fn source_dir(i: usize) -> (r: &'static str)
    requires
        i < 3,
    ensures
        r@ == source_dir_at(i as int),
{
    if i == 0 {
        "sources"
    } else if i == 1 {
        "Sources"
    } else {
        "SOURCES"
    }
}

fn install_file(j: usize) -> (r: &'static str)
    requires
        j < 4,
    ensures
        r@ == install_file_at(j as int),
{
    if j == 0 {
        "install.wim"
    } else if j == 1 {
        "install.esd"
    } else if j == 2 {
        "INSTALL.WIM"
    } else {
        "INSTALL.ESD"
    }
}

/// The places an install image is looked for first, in order: each of the
/// three spellings of `sources` with each of the four file names.
pub fn install_image_candidates(mount_point: &str) -> (r: Vec<String>)
    ensures
        r@.len() == 12,
        forall|k: int|
            0 <= k < 12 ==> (#[trigger] r@[k])@ == path_join(
                path_join(mount_point@, source_dir_at(k / 4)),
                install_file_at(k % 4),
            ),
{
    let mut r: Vec<String> = Vec::new();
    let mut i: usize = 0;
    while i < 3
        invariant
            i <= 3,
            r@.len() == 4 * i,
            forall|k: int|
                0 <= k < 4 * i ==> (#[trigger] r@[k])@ == path_join(
                    path_join(mount_point@, source_dir_at(k / 4)),
                    install_file_at(k % 4),
                ),
        decreases 3 - i,
    {
        let dir = join_path(mount_point, source_dir(i));
        let mut j: usize = 0;
        while j < 4
            invariant
                i < 3,
                j <= 4,
                r@.len() == 4 * i + j,
                dir@ == path_join(mount_point@, source_dir_at(i as int)),
                forall|k: int|
                    0 <= k < 4 * i + j ==> (#[trigger] r@[k])@ == path_join(
                        path_join(mount_point@, source_dir_at(k / 4)),
                        install_file_at(k % 4),
                    ),
            decreases 4 - j,
        {
            let p = join_path(dir.as_str(), install_file(j));
            assert((4 * i + j) / 4 == i as int && (4 * i + j) % 4 == j as int) by (nonlinear_arith)
                requires
                    j < 4,
            ;
            r.push(p);
            j = j + 1;
        }
        i = i + 1;
    }
    r
}

/// A directory entry named `sources` in any case.
pub fn is_sources_dir_name(name: &str) -> (r: bool)
    ensures
        r == eq_ignore_case(name@, "sources"@),
{
    eq_ignore_case_chars(to_chars(name).as_slice(), to_chars("sources").as_slice())
}

/// A file entry named `install.wim` or `install.esd` in any case.
pub fn is_install_image_name(name: &str) -> (r: bool)
    ensures
        r == (eq_ignore_case(name@, "install.wim"@) || eq_ignore_case(name@, "install.esd"@)),
{
    let n = to_chars(name);
    eq_ignore_case_chars(n.as_slice(), to_chars("install.wim").as_slice()) || eq_ignore_case_chars(
        n.as_slice(),
        to_chars("install.esd").as_slice(),
    )
}

// ---------------------------------------------------------------------------
// Checks after applying and after staging boot files
// ---------------------------------------------------------------------------

/// The applied image must have left `Windows` and `Windows/System32`.
pub fn applied_files_check(system_mount: &str, windows_exists: bool, system32_exists: bool) -> (r:
    Result<(), AppError>)
    ensures
        windows_exists && system32_exists ==> r is Ok,
        !(windows_exists && system32_exists) ==> (r matches Err(AppError::ImageError(m)) && m@
            == "Applied system files are incomplete at "@ + system_mount@),
{
    if !windows_exists || !system32_exists {
        let mut m = string_of("Applied system files are incomplete at ");
        push_str(&mut m, system_mount);
        return Err(AppError::ImageError(m));
    }
    Ok(())
}

/// The files a UEFI boot needs on the EFI partition: the BCD store, the
/// Windows boot manager and the fallback loader.
pub open spec fn uefi_artifact(efi_mount: Seq<char>, k: int) -> Seq<char> {
    if k == 0 {
        path_join(
            path_join(path_join(path_join(efi_mount, "EFI"@), "Microsoft"@), "Boot"@),
            "BCD"@,
        )
    } else if k == 1 {
        path_join(
            path_join(path_join(path_join(efi_mount, "EFI"@), "Microsoft"@), "Boot"@),
            "bootmgfw.efi"@,
        )
    } else {
        path_join(path_join(path_join(efi_mount, "EFI"@), "Boot"@), "bootx64.efi"@)
    }
}

/// The boot files to check, in order.
pub fn uefi_boot_artifacts(efi_mount: &str) -> (r: Vec<String>)
    ensures
        r@.len() == 3,
        forall|k: int| 0 <= k < 3 ==> (#[trigger] r@[k])@ == uefi_artifact(efi_mount@, k),
{
    let efi = join_path(efi_mount, "EFI");
    let ms = join_path(efi.as_str(), "Microsoft");
    let boot = join_path(ms.as_str(), "Boot");
    let fb = join_path(efi.as_str(), "Boot");
    let mut r: Vec<String> = Vec::new();
    r.push(join_path(boot.as_str(), "BCD"));
    r.push(join_path(boot.as_str(), "bootmgfw.efi"));
    r.push(join_path(fb.as_str(), "bootx64.efi"));
    r
}

/// The error for a boot file that is missing.
pub fn artifact_missing(path: &str) -> (r: AppError)
    ensures
        r matches AppError::DiskError(m) && m@ == "UEFI boot artifact missing: "@ + path@,
{
    let mut m = string_of("UEFI boot artifact missing: ");
    push_str(&mut m, path);
    AppError::DiskError(m)
}

/// The command that prints the first four bytes of the BCD store in hex.
pub fn bcd_header_command(bcd_path: &str) -> (r: String)
    ensures
        r@ == "/usr/bin/hexdump -n 4 -ve '1/1 \"%02x\"' '"@ + shell_escaped(bcd_path@) + "'"@,
{
    let mut r = string_of("/usr/bin/hexdump -n 4 -ve '1/1 \"%02x\"' '");
    let e = shell_escape_single_quotes(bcd_path);
    push_str(&mut r, e.as_str());
    push_str(&mut r, "'");
    r
}

/// The BCD store must start with the registry hive signature `regf`.
pub fn check_bcd_header(success: bool, header: &str) -> (r: Result<(), AppError>)
    ensures
        !success ==> (r matches Err(AppError::DiskError(m)) && m@
            == "Failed to inspect BCD file header"@),
        success && trim(header@) == "72656766"@ ==> r is Ok,
        success && trim(header@) != "72656766"@ ==> (r matches Err(AppError::DiskError(m)) && m@
            == "Invalid BCD file header: "@ + trim(header@)),
{
    if !success {
        return Err(AppError::DiskError(string_of("Failed to inspect BCD file header")));
    }
    let t = trim_chars(to_chars(header).as_slice());
    if chars_eq(t.as_slice(), to_chars("72656766").as_slice()) {
        return Ok(());
    }
    let mut m = string_of("Invalid BCD file header: ");
    push_chars(&mut m, t.as_slice());
    Err(AppError::DiskError(m))
}

// ---------------------------------------------------------------------------
// Recognizing the EFI partition
// ---------------------------------------------------------------------------

/// What `diskutil info` says of a partition.
pub struct PartitionProbe {
    pub filesystem_type: String,
    pub volume_name: String,
    pub content: String,
    pub total_size: Option<u64>,
    pub size: Option<u64>,
}

/// A partition as `diskutil list` shows it, with its `diskutil info`
/// where that could be read.
pub struct PartitionEntry {
    pub device_identifier: String,
    pub content: String,
    pub volume_name: String,
    pub mount_point: String,
    pub info: Option<PartitionProbe>,
}

/// An EFI partition by its listing (content or name) or by its file system
/// (FAT of at most 2 GiB).
pub open spec fn looks_efi(content: Seq<char>, volume_name: Seq<char>, info: PartitionProbe) -> bool {
    let fs = ascii_lower(info.filesystem_type@);
    let size = match info.total_size {
        Some(v) => v,
        None => match info.size {
            Some(v) => v,
            None => 0,
        },
    };
    contains(ascii_upper(content), "EFI"@) || ascii_upper(volume_name) == "EFI"@ || ((contains(
        fs,
        "ms-dos"@,
    ) || contains(fs, "fat"@) || contains(fs, "efi"@)) && size > 0 && size <= 2147483648)
}

fn lit_in(hay: &Vec<char>, lit: &str) -> (r: bool)
    ensures
        r == contains(hay@, lit@),
{
    contains_chars(hay.as_slice(), to_chars(lit).as_slice())
}

/// Whether a partition looks like the EFI partition.
pub fn partition_looks_efi(content: &str, volume_name: &str, info: &PartitionProbe) -> (r: bool)
    ensures
        r == looks_efi(content@, volume_name@, *info),
{
    let c = upper_chars(to_chars(content).as_slice());
    if lit_in(&c, "EFI") {
        return true;
    }
    let v = upper_chars(to_chars(volume_name).as_slice());
    if chars_eq(v.as_slice(), to_chars("EFI").as_slice()) {
        return true;
    }
    let fs = lower_chars(to_chars(info.filesystem_type.as_str()).as_slice());
    if lit_in(&fs, "ms-dos") || lit_in(&fs, "fat") || lit_in(&fs, "efi") {
        let size: u64 = match info.total_size {
            Some(v) => v,
            None => match info.size {
                Some(v) => v,
                None => 0,
            },
        };
        if size > 0 && size <= 2147483648 {
            return true;
        }
    }
    false
}

/// A partition that may stand in for an EFI partition that failed to mount:
/// named `efi`, or with EFI content or a FAT file system.
pub open spec fn efi_like(info: PartitionProbe) -> bool {
    let fs = ascii_lower(info.filesystem_type@);
    ascii_lower(info.volume_name@) == "efi"@ || contains(ascii_lower(info.content@), "efi"@)
        || contains(fs, "fat"@) || contains(fs, "msdos"@)
}

/// Whether partition `id` is worth mounting in place of the EFI partition
/// `failed_efi_id` (it is neither that nor the system partition).
pub fn alternative_efi_candidate(
    id: &str,
    system_partition_id: &str,
    failed_efi_id: &str,
    info: &Option<PartitionProbe>,
) -> (r: bool)
    ensures
        r == (id@ != system_partition_id@ && id@ != failed_efi_id@ && (*info matches Some(i)
            && efi_like(i))),
{
    let i = to_chars(id);
    if chars_eq(i.as_slice(), to_chars(system_partition_id).as_slice()) || chars_eq(
        i.as_slice(),
        to_chars(failed_efi_id).as_slice(),
    ) {
        return false;
    }
    match info {
        None => false,
        Some(p) => {
            let fs = lower_chars(to_chars(p.filesystem_type.as_str()).as_slice());
            let vn = lower_chars(to_chars(p.volume_name.as_str()).as_slice());
            let ct = lower_chars(to_chars(p.content.as_str()).as_slice());
            chars_eq(vn.as_slice(), to_chars("efi").as_slice()) || lit_in(&ct, "efi") || lit_in(
                &fs,
                "fat",
            ) || lit_in(&fs, "msdos")
        },
    }
}

/// The EFI partition beside the system partition: the first other listed
/// partition that looks like one; else partition 1 of the disk if it
/// exists and is not the system partition.
pub open spec fn spec_choose_efi(
    system_pid: Seq<char>,
    parts: Seq<PartitionEntry>,
    fallback: Seq<char>,
    fallback_exists: bool,
) -> Option<Seq<char>>
    decreases parts.len(),
{
    if parts.len() == 0 {
        if fallback != system_pid && fallback_exists {
            Some(fallback)
        } else {
            None
        }
    } else {
        let p = parts[0];
        let pid = p.device_identifier@;
        if pid.len() > 0 && pid != system_pid && (p.info matches Some(i) && looks_efi(
            p.content@,
            p.volume_name@,
            i,
        )) {
            Some(pid)
        } else {
            spec_choose_efi(system_pid, parts.drop_first(), fallback, fallback_exists)
        }
    }
}

/// Finds the EFI partition for a system partition on `parent_disk`, from
/// that disk's listing; `fallback_exists` says whether `<disk>s1` exists.
pub fn choose_efi_partition(
    system_partition_id: &str,
    parent_disk: &str,
    parts: &Vec<PartitionEntry>,
    fallback_exists: bool,
) -> (r: Result<String, AppError>)
    ensures
        parent_disk@.len() == 0 ==> (r matches Err(AppError::DiskError(m)) && m@
            == "Cannot determine parent disk for partition "@ + system_partition_id@),
        parent_disk@.len() > 0 ==> (spec_choose_efi(
            system_partition_id@,
            parts@,
            parent_disk@ + "s1"@,
            fallback_exists,
        ) matches Some(pid) ==> (r matches Ok(s) && s@ == pid)),
        parent_disk@.len() > 0 ==> (spec_choose_efi(
            system_partition_id@,
            parts@,
            parent_disk@ + "s1"@,
            fallback_exists,
        ) is None ==> (r matches Err(AppError::DiskError(m)) && m@ == "Cannot find EFI partition on "@
            + parent_disk@)),
{
    if to_chars(parent_disk).len() == 0 {
        let mut m = string_of("Cannot determine parent disk for partition ");
        push_str(&mut m, system_partition_id);
        return Err(AppError::DiskError(m));
    }
    let sys = to_chars(system_partition_id);
    let mut fallback = string_of(parent_disk);
    push_str(&mut fallback, "s1");
    let mut i: usize = 0;
    assert(parts@.skip(0) =~= parts@);
    while i < parts.len()
        invariant
            i <= parts@.len(),
            parent_disk@.len() > 0,
            sys@ == system_partition_id@,
            fallback@ == parent_disk@ + "s1"@,
            spec_choose_efi(system_partition_id@, parts@, fallback@, fallback_exists)
                == spec_choose_efi(system_partition_id@, parts@.skip(i as int), fallback@, fallback_exists),
        decreases parts@.len() - i,
    {
        let p = &parts[i];
        assert(parts@.skip(i as int)[0] == parts@[i as int]);
        assert(parts@.skip(i as int).drop_first() =~= parts@.skip(i + 1));
        let pid = to_chars(p.device_identifier.as_str());
        let is_efi = match &p.info {
            Some(inf) => partition_looks_efi(p.content.as_str(), p.volume_name.as_str(), inf),
            None => false,
        };
        if pid.len() > 0 && !chars_eq(pid.as_slice(), sys.as_slice()) && is_efi {
            return Ok(string_of(p.device_identifier.as_str()));
        }
        i = i + 1;
    }
    assert(parts@.skip(i as int) =~= Seq::<PartitionEntry>::empty());
    let fb = to_chars(fallback.as_str());
    if !chars_eq(fb.as_slice(), sys.as_slice()) && fallback_exists {
        return Ok(fallback);
    }
    let mut m = string_of("Cannot find EFI partition on ");
    push_str(&mut m, parent_disk);
    Err(AppError::DiskError(m))
}

// ---------------------------------------------------------------------------
// Finding the system partition from what the user named
// ---------------------------------------------------------------------------

/// A hint that names a mounted volume (a path or a `Volume...` name) and is
/// looked up with `diskutil info`.
pub open spec fn spec_hint_is_volume(hint: Seq<char>) -> bool {
    let t = trim(hint);
    t.len() > 0 && (starts_with(t, "/"@) || starts_with(t, "Volume"@))
}

pub fn hint_is_volume(hint: &str) -> (r: bool)
    ensures
        r == spec_hint_is_volume(hint@),
{
    let t = trim_chars(to_chars(hint).as_slice());
    t.len() > 0 && (starts_with_chars(t.as_slice(), to_chars("/").as_slice()) || starts_with_chars(
        t.as_slice(),
        to_chars("Volume").as_slice(),
    ))
}

/// The first listed partition whose identifier is a partition identifier.
pub open spec fn spec_first_data(parts: Seq<PartitionEntry>) -> Option<Seq<char>>
    decreases parts.len(),
{
    if parts.len() == 0 {
        None
    } else if spec_parse_partition_id(parts[0].device_identifier@) is Some {
        Some(parts[0].device_identifier@)
    } else {
        spec_first_data(parts.drop_first())
    }
}

pub fn first_data_partition(parts: &Vec<PartitionEntry>) -> (r: Option<String>)
    ensures
        spec_first_data(parts@) matches Some(p) ==> (r matches Some(s) && s@ == p),
        spec_first_data(parts@) is None ==> r is None,
{
    let mut i: usize = 0;
    assert(parts@.skip(0) =~= parts@);
    while i < parts.len()
        invariant
            i <= parts@.len(),
            spec_first_data(parts@) == spec_first_data(parts@.skip(i as int)),
        decreases parts@.len() - i,
    {
        assert(parts@.skip(i as int)[0] == parts@[i as int]);
        assert(parts@.skip(i as int).drop_first() =~= parts@.skip(i + 1));
        if parse_partition_id(parts[i].device_identifier.as_str()).is_some() {
            return Some(string_of(parts[i].device_identifier.as_str()));
        }
        i = i + 1;
    }
    assert(parts@.skip(i as int) =~= Seq::<PartitionEntry>::empty());
    None
}

/// On a named disk: the first mounted partition holding `Windows`, else the
/// first whose info was read and that does not look like EFI.
pub open spec fn spec_system_on_disk(parts: Seq<PartitionEntry>, has_windows: Seq<bool>) -> Option<
    Seq<char>,
> {
    match first_with_windows(parts, has_windows) {
        Some(p) => Some(p),
        None => first_non_efi(parts),
    }
}

pub open spec fn first_with_windows(parts: Seq<PartitionEntry>, has_windows: Seq<bool>) -> Option<
    Seq<char>,
>
    decreases parts.len(),
{
    if parts.len() == 0 || has_windows.len() == 0 {
        None
    } else if parts[0].device_identifier@.len() > 0 && parts[0].mount_point@.len() > 0
        && has_windows[0] {
        Some(parts[0].device_identifier@)
    } else {
        first_with_windows(parts.drop_first(), has_windows.drop_first())
    }
}

pub open spec fn first_non_efi(parts: Seq<PartitionEntry>) -> Option<Seq<char>>
    decreases parts.len(),
{
    if parts.len() == 0 {
        None
    } else if parts[0].info matches Some(i) && !looks_efi(
        parts[0].content@,
        parts[0].volume_name@,
        i,
    ) {
        Some(parts[0].device_identifier@)
    } else {
        first_non_efi(parts.drop_first())
    }
}

/// The system partition of a disk named directly; `has_windows[k]` says
/// whether partition `k`'s mount point holds a `Windows` directory.
pub fn system_partition_on_disk(parts: &Vec<PartitionEntry>, has_windows: &Vec<bool>) -> (r:
    Option<String>)
    requires
        has_windows@.len() == parts@.len(),
    ensures
        spec_system_on_disk(parts@, has_windows@) matches Some(p) ==> (r matches Some(s) && s@ == p),
        spec_system_on_disk(parts@, has_windows@) is None ==> r is None,
{
    let mut i: usize = 0;
    assert(parts@.skip(0) =~= parts@);
    assert(has_windows@.skip(0) =~= has_windows@);
    while i < parts.len()
        invariant
            i <= parts@.len() == has_windows@.len(),
            first_with_windows(parts@, has_windows@) == first_with_windows(
                parts@.skip(i as int),
                has_windows@.skip(i as int),
            ),
        decreases parts@.len() - i,
    {
        let p = &parts[i];
        assert(parts@.skip(i as int)[0] == parts@[i as int]);
        assert(has_windows@.skip(i as int)[0] == has_windows@[i as int]);
        assert(parts@.skip(i as int).drop_first() =~= parts@.skip(i + 1));
        assert(has_windows@.skip(i as int).drop_first() =~= has_windows@.skip(i + 1));
        if p.device_identifier.as_str().unicode_len() > 0 && p.mount_point.as_str().unicode_len()
            > 0 && has_windows[i] {
            return Some(string_of(p.device_identifier.as_str()));
        }
        i = i + 1;
    }
    assert(parts@.skip(i as int) =~= Seq::<PartitionEntry>::empty());
    assert(has_windows@.skip(i as int) =~= Seq::<bool>::empty());
    let mut j: usize = 0;
    while j < parts.len()
        invariant
            j <= parts@.len(),
            first_with_windows(parts@, has_windows@) is None,
            first_non_efi(parts@) == first_non_efi(parts@.skip(j as int)),
        decreases parts@.len() - j,
    {
        let p = &parts[j];
        assert(parts@.skip(j as int)[0] == parts@[j as int]);
        assert(parts@.skip(j as int).drop_first() =~= parts@.skip(j + 1));
        let ok = match &p.info {
            Some(inf) => !partition_looks_efi(p.content.as_str(), p.volume_name.as_str(), inf),
            None => false,
        };
        if ok {
            return Some(string_of(p.device_identifier.as_str()));
        }
        j = j + 1;
    }
    assert(parts@.skip(j as int) =~= Seq::<PartitionEntry>::empty());
    None
}

/// The error when no system partition can be found from the hint.
pub fn system_partition_unresolved(hint: &str) -> (r: AppError)
    ensures
        r matches AppError::InvalidParameter(m) && m@ == "Cannot resolve system partition from target '"@
            + hint@ + "'"@,
{
    let mut m = string_of("Cannot resolve system partition from target '");
    push_str(&mut m, hint);
    push_str(&mut m, "'");
    AppError::InvalidParameter(m)
}

// ---------------------------------------------------------------------------
// Boot repair
// ---------------------------------------------------------------------------

/// The work of a UEFI boot repair, once both partitions are mounted.
pub struct UefiRepairPlan {
    /// Copies the boot files from the system onto the EFI partition.
    pub stage_command: String,
    /// Puts a valid BCD store in place.
    pub bcd_command: String,
    /// The boot files that must then exist.
    pub artifacts: Vec<String>,
    /// Prints the BCD store's header for `check_bcd_header`.
    pub header_command: String,
    /// What is reported when all of this succeeded.
    pub message: String,
}

/// Plans the UEFI boot repair of the system partition mounted at
/// `system_mount` with the EFI partition at `efi_mount`; a system partition
/// without a `Windows` directory is refused.
pub fn repair_boot_uefi_for_target(
    system_partition_id: &str,
    efi_partition_id: &str,
    system_mount: &str,
    efi_mount: &str,
    windows_dir_exists: bool,
) -> (r: Result<UefiRepairPlan, AppError>)
    ensures
        !windows_dir_exists ==> (r matches Err(AppError::DiskError(m)) && m@ == "Target partition "@
            + system_partition_id@ + " does not contain a Windows directory"@),
        windows_dir_exists ==> (r matches Ok(p) && {
            &&& p.stage_command@ == "SYS="@ + quoted(system_mount@) + "; EFI="@ + quoted(efi_mount@)
                + stage_payload_tail()
            &&& p.bcd_command@ == "SYS="@ + quoted(system_mount@) + "; EFI="@ + quoted(efi_mount@)
                + repair_bcd_tail()
            &&& p.artifacts@.len() == 3
            &&& forall|k: int| 0 <= k < 3 ==> (#[trigger] p.artifacts@[k])@ == uefi_artifact(efi_mount@, k)
            &&& p.header_command@ == "/usr/bin/hexdump -n 4 -ve '1/1 \"%02x\"' '"@ + shell_escaped(
                uefi_artifact(efi_mount@, 0),
            ) + "'"@
            &&& p.message@ == "Boot repair completed (UEFI). System: /dev/"@ + system_partition_id@
                + " -> "@ + system_mount@ + " ; EFI: /dev/"@ + efi_partition_id@ + " -> "@
                + efi_mount@
        }),
{
    if !windows_dir_exists {
        let mut m = string_of("Target partition ");
        push_str(&mut m, system_partition_id);
        push_str(&mut m, " does not contain a Windows directory");
        return Err(AppError::DiskError(m));
    }
    let artifacts = uefi_boot_artifacts(efi_mount);
    let header_command = bcd_header_command(artifacts[0].as_str());
    let mut message = string_of("Boot repair completed (UEFI). System: /dev/");
    push_str(&mut message, system_partition_id);
    push_str(&mut message, " -> ");
    push_str(&mut message, system_mount);
    push_str(&mut message, " ; EFI: /dev/");
    push_str(&mut message, efi_partition_id);
    push_str(&mut message, " -> ");
    push_str(&mut message, efi_mount);
    Ok(
        UefiRepairPlan {
            stage_command: stage_uefi_boot_payload_command(system_mount, efi_mount),
            bcd_command: repair_uefi_bcd_store_command(system_mount, efi_mount),
            artifacts,
            header_command,
            message,
        },
    )
}


// ---------------------------------------------------------------------------
// Extra features on macOS
// ---------------------------------------------------------------------------

/// What the extra-feature step does: the features it applies, those it
/// cannot apply on macOS, notes, whether the skip-OOBE answer file is
/// written, and the first-boot script (only when something is applied).
pub struct MacExtraFeatureOutcome {
    pub applied: Vec<String>,
    pub unsupported: Vec<String>,
    pub notes: Vec<String>,
    pub skip_oobe_unattend: bool,
    pub script_text: Option<String>,
}

pub open spec fn when(b: bool, s: Seq<Seq<char>>) -> Seq<Seq<char>> {
    if b {
        s
    } else {
        Seq::<Seq<char>>::empty()
    }
}

/// The features applied, in order.
pub open spec fn applied_names(f: ExtraFeatures) -> Seq<Seq<char>> {
    when(f.block_local_disk, seq!["block_local_disk"@]) + when(f.disable_winre, seq!["disable_winre"@])
        + when(f.skip_oobe, seq!["skip_oobe"@]) + when(f.disable_uasp, seq!["disable_uasp"@]) + when(
        f.no_default_drive_letter,
        seq!["no_default_drive_letter"@],
    ) + when(f.compact_os, seq!["compact_os"@])
}

/// The features requested that macOS cannot apply, in order.
pub open spec fn unsupported_names(f: ExtraFeatures) -> Seq<Seq<char>> {
    when(f.install_dotnet35, seq!["install_dotnet35"@]) + when(f.fix_letter, seq!["fix_letter"@])
        + when(f.wimboot, seq!["wimboot"@]) + when(f.enable_bitlocker, seq!["enable_bitlocker"@])
        + when(f.driver_path is Some, seq!["driver_path"@])
}

pub open spec fn extra_notes(f: ExtraFeatures) -> Seq<Seq<char>> {
    when(f.ntfs_uefi_support, seq!["ntfs_uefi_support is ignored on macOS UEFI write path"@])
}

pub open spec fn script_header() -> Seq<Seq<char>> {
    seq![
        "@echo off"@,
        "setlocal enableextensions"@,
        "set WTGA_LOG=%SystemRoot%\\Setup\\Scripts\\WTGA-ExtraFeatures.log"@,
        "echo [WTGA] Extra features script started %DATE% %TIME%>>\"%WTGA_LOG%\""@,
    ]
}

pub open spec fn block_local_disk_lines() -> Seq<Seq<char>> {
    seq![
        "echo [WTGA] Applying SAN policy (block local disks)>>\"%WTGA_LOG%\""@,
        "reg add \"HKLM\\SYSTEM\\CurrentControlSet\\Services\\partmgr\\Parameters\" /v SanPolicy /t REG_DWORD /d 4 /f >>\"%WTGA_LOG%\" 2>&1"@,
        "(echo san policy=4) > \"%SystemRoot%\\Setup\\Scripts\\wtga-san.txt\""@,
        "diskpart /s \"%SystemRoot%\\Setup\\Scripts\\wtga-san.txt\" >>\"%WTGA_LOG%\" 2>&1"@,
    ]
}

pub open spec fn disable_winre_lines() -> Seq<Seq<char>> {
    seq!["echo [WTGA] Disabling WinRE>>\"%WTGA_LOG%\""@, "reagentc /disable >>\"%WTGA_LOG%\" 2>&1"@]
}

pub open spec fn skip_oobe_lines() -> Seq<Seq<char>> {
    seq![
        "echo [WTGA] Applying skip OOBE registry flags>>\"%WTGA_LOG%\""@,
        "reg add \"HKLM\\SOFTWARE\\Microsoft\\Windows\\CurrentVersion\\OOBE\" /v SkipMachineOOBE /t REG_DWORD /d 1 /f >>\"%WTGA_LOG%\" 2>&1"@,
        "reg add \"HKLM\\SOFTWARE\\Microsoft\\Windows\\CurrentVersion\\OOBE\" /v SkipUserOOBE /t REG_DWORD /d 1 /f >>\"%WTGA_LOG%\" 2>&1"@,
        "reg add \"HKLM\\SOFTWARE\\Microsoft\\Windows\\CurrentVersion\\OOBE\" /v PrivacyConsentStatus /t REG_DWORD /d 1 /f >>\"%WTGA_LOG%\" 2>&1"@,
    ]
}

pub open spec fn disable_uasp_lines() -> Seq<Seq<char>> {
    seq![
        "echo [WTGA] Disabling UASP (uaspstor)>>\"%WTGA_LOG%\""@,
        "reg add \"HKLM\\SYSTEM\\CurrentControlSet\\Services\\uaspstor\" /v Start /t REG_DWORD /d 4 /f >>\"%WTGA_LOG%\" 2>&1"@,
    ]
}

pub open spec fn no_default_letter_lines() -> Seq<Seq<char>> {
    seq![
        "echo [WTGA] Setting no default drive letter policy>>\"%WTGA_LOG%\""@,
        "mountvol /N >>\"%WTGA_LOG%\" 2>&1"@,
        "(echo select volume %SystemDrive% & echo attributes volume set nodefaultdriveletter) > \"%SystemRoot%\\Setup\\Scripts\\wtga-nodefaultdriveletter.txt\""@,
        "diskpart /s \"%SystemRoot%\\Setup\\Scripts\\wtga-nodefaultdriveletter.txt\" >>\"%WTGA_LOG%\" 2>&1"@,
    ]
}

pub open spec fn compact_os_lines() -> Seq<Seq<char>> {
    seq!["echo [WTGA] Enabling CompactOS>>\"%WTGA_LOG%\""@, "compact.exe /CompactOS:always >>\"%WTGA_LOG%\" 2>&1"@]
}

pub open spec fn script_footer() -> Seq<Seq<char>> {
    seq![
        "echo [WTGA] Extra features script finished %DATE% %TIME%>>\"%WTGA_LOG%\""@,
        "endlocal"@,
        "exit /b 0"@,
    ]
}

/// The lines of the first-boot script.
pub open spec fn extra_script_lines(f: ExtraFeatures) -> Seq<Seq<char>> {
    script_header() + when(f.block_local_disk, block_local_disk_lines()) + when(
        f.disable_winre,
        disable_winre_lines(),
    ) + when(f.skip_oobe, skip_oobe_lines()) + when(f.disable_uasp, disable_uasp_lines()) + when(
        f.no_default_drive_letter,
        no_default_letter_lines(),
    ) + when(f.compact_os, compact_os_lines()) + script_footer()
}

fn strings_of(items: &[&str]) -> (r: Vec<String>)
    ensures
        r@.len() == items@.len(),
        forall|k: int| 0 <= k < items@.len() ==> (#[trigger] r@[k])@ == items@[k]@,
{
    let mut r: Vec<String> = Vec::new();
    let mut i: usize = 0;
    while i < items.len()
        invariant
            i <= items@.len(),
            r@.len() == i,
            forall|k: int| 0 <= k < i ==> (#[trigger] r@[k])@ == items@[k]@,
        decreases items@.len() - i,
    {
        r.push(string_of(items[i]));
        i = i + 1;
    }
    r
}

fn extend_when(v: &mut Vec<String>, b: bool, items: Vec<String>)
    ensures
        views(final(v)@) == views(old(v)@) + when(b, views(items@)),
{
    if b {
        let mut it = items;
        let ghost a = v@;
        let ghost c = it@;
        v.append(&mut it);
        assert(v@ =~= a + c);
        assert(views(v@) =~= views(a) + views(c));
    } else {
        assert(views(v@) =~= views(v@) + Seq::<Seq<char>>::empty());
    }
}

fn lines_block(which: u8) -> (r: Vec<String>)
    requires
        which < 8,
    ensures
        which == 0 ==> views(r@) == script_header(),
        which == 1 ==> views(r@) == block_local_disk_lines(),
        which == 2 ==> views(r@) == disable_winre_lines(),
        which == 3 ==> views(r@) == skip_oobe_lines(),
        which == 4 ==> views(r@) == disable_uasp_lines(),
        which == 5 ==> views(r@) == no_default_letter_lines(),
        which == 6 ==> views(r@) == compact_os_lines(),
        which == 7 ==> views(r@) == script_footer(),
{
    let r = if which == 0 {
        strings_of(
            &[
                "@echo off",
                "setlocal enableextensions",
                "set WTGA_LOG=%SystemRoot%\\Setup\\Scripts\\WTGA-ExtraFeatures.log",
                "echo [WTGA] Extra features script started %DATE% %TIME%>>\"%WTGA_LOG%\"",
            ],
        )
    } else if which == 1 {
        strings_of(
            &[
                "echo [WTGA] Applying SAN policy (block local disks)>>\"%WTGA_LOG%\"",
                "reg add \"HKLM\\SYSTEM\\CurrentControlSet\\Services\\partmgr\\Parameters\" /v SanPolicy /t REG_DWORD /d 4 /f >>\"%WTGA_LOG%\" 2>&1",
                "(echo san policy=4) > \"%SystemRoot%\\Setup\\Scripts\\wtga-san.txt\"",
                "diskpart /s \"%SystemRoot%\\Setup\\Scripts\\wtga-san.txt\" >>\"%WTGA_LOG%\" 2>&1",
            ],
        )
    } else if which == 2 {
        strings_of(
            &["echo [WTGA] Disabling WinRE>>\"%WTGA_LOG%\"", "reagentc /disable >>\"%WTGA_LOG%\" 2>&1"],
        )
    } else if which == 3 {
        strings_of(
            &[
                "echo [WTGA] Applying skip OOBE registry flags>>\"%WTGA_LOG%\"",
                "reg add \"HKLM\\SOFTWARE\\Microsoft\\Windows\\CurrentVersion\\OOBE\" /v SkipMachineOOBE /t REG_DWORD /d 1 /f >>\"%WTGA_LOG%\" 2>&1",
                "reg add \"HKLM\\SOFTWARE\\Microsoft\\Windows\\CurrentVersion\\OOBE\" /v SkipUserOOBE /t REG_DWORD /d 1 /f >>\"%WTGA_LOG%\" 2>&1",
                "reg add \"HKLM\\SOFTWARE\\Microsoft\\Windows\\CurrentVersion\\OOBE\" /v PrivacyConsentStatus /t REG_DWORD /d 1 /f >>\"%WTGA_LOG%\" 2>&1",
            ],
        )
    } else if which == 4 {
        strings_of(
            &[
                "echo [WTGA] Disabling UASP (uaspstor)>>\"%WTGA_LOG%\"",
                "reg add \"HKLM\\SYSTEM\\CurrentControlSet\\Services\\uaspstor\" /v Start /t REG_DWORD /d 4 /f >>\"%WTGA_LOG%\" 2>&1",
            ],
        )
    } else if which == 5 {
        strings_of(
            &[
                "echo [WTGA] Setting no default drive letter policy>>\"%WTGA_LOG%\"",
                "mountvol /N >>\"%WTGA_LOG%\" 2>&1",
                "(echo select volume %SystemDrive% & echo attributes volume set nodefaultdriveletter) > \"%SystemRoot%\\Setup\\Scripts\\wtga-nodefaultdriveletter.txt\"",
                "diskpart /s \"%SystemRoot%\\Setup\\Scripts\\wtga-nodefaultdriveletter.txt\" >>\"%WTGA_LOG%\" 2>&1",
            ],
        )
    } else if which == 6 {
        strings_of(
            &[
                "echo [WTGA] Enabling CompactOS>>\"%WTGA_LOG%\"",
                "compact.exe /CompactOS:always >>\"%WTGA_LOG%\" 2>&1",
            ],
        )
    } else {
        strings_of(
            &[
                "echo [WTGA] Extra features script finished %DATE% %TIME%>>\"%WTGA_LOG%\"",
                "endlocal",
                "exit /b 0",
            ],
        )
    };
    proof {
        if which == 0 {
            assert(views(r@) =~= script_header());
        } else if which == 1 {
            assert(views(r@) =~= block_local_disk_lines());
        } else if which == 2 {
            assert(views(r@) =~= disable_winre_lines());
        } else if which == 3 {
            assert(views(r@) =~= skip_oobe_lines());
        } else if which == 4 {
            assert(views(r@) =~= disable_uasp_lines());
        } else if which == 5 {
            assert(views(r@) =~= no_default_letter_lines());
        } else if which == 6 {
            assert(views(r@) =~= compact_os_lines());
        } else {
            assert(views(r@) =~= script_footer());
        }
    }
    r
}

fn one(s: &str) -> (r: Vec<String>)
    ensures
        views(r@) == seq![s@],
{
    let mut r: Vec<String> = Vec::new();
    r.push(string_of(s));
    assert(views(r@) =~= seq![s@]);
    r
}

/// Plans the extra features of a macOS write; the first-boot script is
/// its lines joined by CRLF with a final CRLF, and exists only when some
/// feature is applied.
pub fn apply_macos_extra_features(f: &ExtraFeatures) -> (r: MacExtraFeatureOutcome)
    ensures
        views(r.applied@) == applied_names(*f),
        views(r.unsupported@) == unsupported_names(*f),
        views(r.notes@) == extra_notes(*f),
        r.skip_oobe_unattend == f.skip_oobe,
        applied_names(*f).len() == 0 ==> r.script_text is None,
        applied_names(*f).len() > 0 ==> (r.script_text matches Some(t) && t@ == join(
            extra_script_lines(*f),
            "\r\n"@,
        ) + "\r\n"@),
{
    let mut applied: Vec<String> = Vec::new();
    extend_when(&mut applied, f.block_local_disk, one("block_local_disk"));
    extend_when(&mut applied, f.disable_winre, one("disable_winre"));
    extend_when(&mut applied, f.skip_oobe, one("skip_oobe"));
    extend_when(&mut applied, f.disable_uasp, one("disable_uasp"));
    extend_when(&mut applied, f.no_default_drive_letter, one("no_default_drive_letter"));
    extend_when(&mut applied, f.compact_os, one("compact_os"));
    assert(views(applied@) =~= applied_names(*f));

    let mut unsupported: Vec<String> = Vec::new();
    extend_when(&mut unsupported, f.install_dotnet35, one("install_dotnet35"));
    extend_when(&mut unsupported, f.fix_letter, one("fix_letter"));
    extend_when(&mut unsupported, f.wimboot, one("wimboot"));
    extend_when(&mut unsupported, f.enable_bitlocker, one("enable_bitlocker"));
    extend_when(&mut unsupported, f.driver_path.is_some(), one("driver_path"));
    assert(views(unsupported@) =~= unsupported_names(*f));

    let mut notes: Vec<String> = Vec::new();
    extend_when(&mut notes, f.ntfs_uefi_support, one("ntfs_uefi_support is ignored on macOS UEFI write path"));
    assert(views(notes@) =~= extra_notes(*f));

    if applied.len() == 0 {
        return MacExtraFeatureOutcome {
            applied,
            unsupported,
            notes,
            skip_oobe_unattend: f.skip_oobe,
            script_text: None,
        };
    }
    let mut lines = lines_block(0);
    extend_when(&mut lines, f.block_local_disk, lines_block(1));
    extend_when(&mut lines, f.disable_winre, lines_block(2));
    extend_when(&mut lines, f.skip_oobe, lines_block(3));
    extend_when(&mut lines, f.disable_uasp, lines_block(4));
    extend_when(&mut lines, f.no_default_drive_letter, lines_block(5));
    extend_when(&mut lines, f.compact_os, lines_block(6));
    extend_when(&mut lines, true, lines_block(7));
    assert(views(lines@) =~= extra_script_lines(*f));
    let mut text = join_strings(&lines, "\r\n");
    push_str(&mut text, "\r\n");
    MacExtraFeatureOutcome {
        applied,
        unsupported,
        notes,
        skip_oobe_unattend: f.skip_oobe,
        script_text: Some(text),
    }
}

/// The error when the applied system has no `Windows` directory.
pub fn extra_features_windows_missing(windows_dir: &str) -> (r: AppError)
    ensures
        r matches AppError::ImageError(m) && m@
            == "Cannot apply extra features: Windows directory missing at "@ + windows_dir@,
{
    let mut m = string_of("Cannot apply extra features: Windows directory missing at ");
    push_str(&mut m, windows_dir);
    AppError::ImageError(m)
}

pub open spec fn setup_call_line() -> Seq<char> {
    "call \"%SystemRoot%\\Setup\\Scripts\\WTGA-ExtraFeatures.cmd\""@
}

/// `SetupComplete.cmd` made to call the extra-features script and to end
/// with `exit /b 0`, starting from its present text (or a bare script).
pub open spec fn spec_setup_complete(existing: Option<Seq<char>>) -> Seq<char> {
    let c0 = match existing {
        Some(t) => t,
        None => "@echo off\r\n"@,
    };
    let c1 = if contains(ascii_lower(c0), "wtga-extrafeatures.cmd"@) {
        c0
    } else {
        (if ends_with(c0, "\n"@) {
            c0
        } else {
            c0 + "\r\n"@
        }) + setup_call_line() + "\r\n"@
    };
    if contains(ascii_lower(c1), "exit /b 0"@) {
        c1
    } else {
        c1 + "exit /b 0\r\n"@
    }
}

fn has_lower(s: &String, lit: &str) -> (r: bool)
    ensures
        r == contains(ascii_lower(s@), lit@),
{
    let l = lower_chars(to_chars(s.as_str()).as_slice());
    contains_chars(l.as_slice(), to_chars(lit).as_slice())
}

/// The new text of `SetupComplete.cmd`.
pub fn setup_complete_content(existing: Option<&str>) -> (r: String)
    ensures
        r@ == spec_setup_complete(match existing {
            Some(t) => Some(t@),
            None => None,
        }),
{
    let mut content = match existing {
        Some(t) => string_of(t),
        None => string_of("@echo off\r\n"),
    };
    if !has_lower(&content, "wtga-extrafeatures.cmd") {
        let cs = to_chars(content.as_str());
        let nl = to_chars("\n");
        if !crate::text::ends_with_chars(cs.as_slice(), nl.as_slice()) {
            push_str(&mut content, "\r\n");
        }
        push_str(&mut content, "call \"%SystemRoot%\\Setup\\Scripts\\WTGA-ExtraFeatures.cmd\"");
        push_str(&mut content, "\r\n");
    }
    if !has_lower(&content, "exit /b 0") {
        push_str(&mut content, "exit /b 0\r\n");
    }
    content
}

// ---------------------------------------------------------------------------
// The macOS write
// ---------------------------------------------------------------------------

/// What must hold before a macOS write starts: the image exists, the boot
/// mode is a UEFI one, and wimlib and the NTFS tools are present.
pub fn macos_write_prerequisites(
    image_path: &str,
    image_exists: bool,
    boot_mode: BootMode,
    wimlib: bool,
    ntfs3g: bool,
    mkntfs: bool,
    mkfs_ntfs: bool,
) -> (r: Result<(), AppError>)
    ensures
        !image_exists ==> (r matches Err(AppError::ImageError(m)) && m@ == "Image file does not exist: "@
            + image_path@),
        image_exists && boot_mode is NonUefi ==> (r matches Err(AppError::Unsupported(m)) && m@
            == "macOS WTG write currently supports UEFI boot modes only"@),
        image_exists && !(boot_mode is NonUefi) && !wimlib ==> (r matches Err(AppError::ImageError(m))
            && m@ == "Missing dependency: wimlib-imagex. Install with: brew install wimlib"@),
        image_exists && !(boot_mode is NonUefi) && wimlib && !ntfs3g ==> (r matches Err(
            AppError::DiskError(m),
        ) && m@
            == "Missing dependency: ntfs-3g. Install with: brew tap gromgit/homebrew-fuse && brew install ntfs-3g-mac"@),
        image_exists && !(boot_mode is NonUefi) && wimlib && ntfs3g && !mkntfs && !mkfs_ntfs ==> (r
            matches Err(AppError::DiskError(m)) && m@
            == "Missing dependency: mkntfs (from ntfs-3g). Install with: brew tap gromgit/homebrew-fuse && brew install ntfs-3g-mac"@),
        image_exists && !(boot_mode is NonUefi) && wimlib && ntfs3g && (mkntfs || mkfs_ntfs) ==> r is Ok,
{
    if !image_exists {
        let mut m = string_of("Image file does not exist: ");
        push_str(&mut m, image_path);
        return Err(AppError::ImageError(m));
    }
    if boot_mode == BootMode::NonUefi {
        return Err(AppError::Unsupported(
            string_of("macOS WTG write currently supports UEFI boot modes only"),
        ));
    }
    match requires_wimlib(wimlib) {
        Ok(()) => {},
        Err(e) => {
            return Err(e);
        },
    }
    requires_ntfs_tooling(ntfs3g, mkntfs, mkfs_ntfs)
}

/// The target must be an external disk, and the write must be allowed to
/// repartition it.
pub fn macos_target_check(disk_id: &str, internal: bool, f: &ExtraFeatures) -> (r: Result<
    (),
    AppError,
>)
    ensures
        internal ==> (r matches Err(AppError::DiskError(m)) && m@
            == "Refusing to write to internal disk /dev/"@ + disk_id@
            + " on macOS. Please select an external target disk."@),
        !internal && !(f.repartition || !f.do_not_format) ==> (r matches Err(
            AppError::Unsupported(m),
        ) && m@
            == "macOS WTG write currently requires repartition/format. Please disable 'Do not format' or enable repartition."@),
        !internal && (f.repartition || !f.do_not_format) ==> r is Ok,
{
    if internal {
        let mut m = string_of("Refusing to write to internal disk /dev/");
        push_str(&mut m, disk_id);
        push_str(&mut m, " on macOS. Please select an external target disk.");
        return Err(AppError::DiskError(m));
    }
    if !(f.repartition || !f.do_not_format) {
        return Err(AppError::Unsupported(
            string_of(
                "macOS WTG write currently requires repartition/format. Please disable 'Do not format' or enable repartition.",
            ),
        ));
    }
    Ok(())
}

/// The error when no EFI partition is mounted to receive boot files.
pub fn efi_not_mounted() -> (r: AppError)
    ensures
        r matches AppError::DiskError(m) && m@
            == "EFI partition was not created/mounted; cannot stage boot files"@,
{
    AppError::DiskError(string_of("EFI partition was not created/mounted; cannot stage boot files"))
}

/// The message of a finished macOS write, naming the applied and the
/// unsupported extra features where there are any.
pub open spec fn macos_write_message_text(
    system_mount: Seq<char>,
    efi_mount: Seq<char>,
    applied: Seq<Seq<char>>,
    unsupported: Seq<Seq<char>>,
) -> Seq<char> {
    "WTG image applied to NTFS system partition "@ + system_mount
        + " and UEFI boot files staged at "@ + efi_mount + "."@ + (if applied.len() > 0 {
        " Applied extra features: "@ + join(applied, ", "@) + "."@
    } else {
        Seq::<char>::empty()
    }) + (if unsupported.len() > 0 {
        " Not yet supported on macOS: "@ + join(unsupported, ", "@) + "."@
    } else {
        Seq::<char>::empty()
    })
}

/// The completion message of a macOS write.
pub fn macos_write_message(
    system_mount: &str,
    efi_mount: &str,
    applied: &Vec<String>,
    unsupported: &Vec<String>,
) -> (r: String)
    ensures
        r@ == macos_write_message_text(system_mount@, efi_mount@, views(applied@), views(unsupported@)),
{
    let mut m = string_of("WTG image applied to NTFS system partition ");
    push_str(&mut m, system_mount);
    push_str(&mut m, " and UEFI boot files staged at ");
    push_str(&mut m, efi_mount);
    push_str(&mut m, ".");
    if applied.len() > 0 {
        push_str(&mut m, " Applied extra features: ");
        let j = join_strings(applied, ", ");
        push_str(&mut m, j.as_str());
        push_str(&mut m, ".");
    }
    if unsupported.len() > 0 {
        push_str(&mut m, " Not yet supported on macOS: ");
        let j = join_strings(unsupported, ", ");
        push_str(&mut m, j.as_str());
        push_str(&mut m, ".");
    }
    m
}

} // verus!

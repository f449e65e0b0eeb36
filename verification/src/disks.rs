//! Disk listings: turning what PowerShell (Windows) and diskutil (macOS)
//! report about a disk into the `DiskInfo` the front end shows.

use crate::error::AppError;
use crate::text::{
    occurs_at, rfind, all_digits, ascii_upper, contains, contains_chars, decimal, eq_ignore_case,
    eq_ignore_case_chars, find, from_chars, is_digit_char, push_decimal, push_str, starts_with,
    starts_with_chars, string_of, to_chars, trim, trim_str, upper_chars,
};
use vstd::prelude::*;

verus! {

/// A disk as the front end lists it.
#[derive(Debug, Clone)]
pub struct DiskInfo {
    pub id: String,
    pub name: String,
    pub size: u64,
    pub removable: bool,
    pub device: String,
    /// e.g. "Removable", "Fixed (NVMe)".
    pub drive_type: String,
    /// e.g. "SSD", "HDD".
    pub media_type: String,
    /// Disk number as text.
    pub index: String,
    /// Drive letter or mount point.
    pub volume: String,
    pub is_system: bool,
}

impl DiskInfo {
    /// A copy of the record.
    pub fn copy(&self) -> (r: Self)
        ensures
            r == *self,
    {
        DiskInfo {
            id: self.id.clone(),
            name: self.name.clone(),
            size: self.size,
            removable: self.removable,
            device: self.device.clone(),
            drive_type: self.drive_type.clone(),
            media_type: self.media_type.clone(),
            index: self.index.clone(),
            volume: self.volume.clone(),
            is_system: self.is_system,
        }
    }
}

/// `str::to_uppercase` (full Unicode upper-casing) of a text.
pub uninterp spec fn unicode_upper(s: Seq<char>) -> Seq<char>;

/// `str::to_uppercase`; the Unicode case tables are not restated here, the
/// result is only named.
#[verifier::external_body]
fn to_uppercase(s: &str) -> (r: String)
    ensures
        r@ == unicode_upper(s@),
{
    s.to_uppercase()
}

// ---------------------------------------------------------------------------
// Windows: `Get-Disk` records
// ---------------------------------------------------------------------------

/// What the disk listing reads of one PowerShell disk record (absent
/// numbers are 0, absent flags false).
#[derive(Debug, Clone)]
pub struct PsDisk {
    pub number: u64,
    pub friendly_name: Option<String>,
    pub size: u64,
    pub bus_type: u64,
    pub media_type: Option<String>,
    pub is_system: bool,
    pub is_boot: bool,
    /// `BusTypeName`, else `BusType` when it is text.
    pub bus_name: Option<String>,
    pub volume_letter: Option<String>,
}

/// The media type shown for PowerShell's media type text.
pub open spec fn spec_normalize_media_type(raw: Seq<char>) -> Seq<char> {
    let up = unicode_upper(raw);
    if contains(up, "SSD"@) || contains(up, "NVME"@) || up == "4"@ {
        "SSD"@
    } else if contains(up, "HDD"@) || contains(up, "ROTATIONAL"@) || up == "3"@ {
        "HDD"@
    } else if contains(up, "UNKNOWN"@) || contains(up, "UNSPECIFIED"@) || trim(up).len() == 0 {
        "Unknown"@
    } else {
        trim(raw)
    }
}

fn has(h: &[char], lit: &str) -> (r: bool)
    ensures
        r == contains(h@, lit@),
{
    let p = to_chars(lit);
    contains_chars(h, p.as_slice())
}

fn is_lit(h: &[char], lit: &str) -> (r: bool)
    ensures
        r == (h@ == lit@),
{
    let p = to_chars(lit);
    crate::text::chars_eq(h, p.as_slice())
}

pub fn normalize_media_type(raw: &str) -> (r: String)
    ensures
        r@ == spec_normalize_media_type(raw@),
{
    let u = to_uppercase(raw);
    let up = to_chars(u.as_str());
    let h = up.as_slice();
    if has(h, "SSD") || has(h, "NVME") || is_lit(h, "4") {
        string_of("SSD")
    } else if has(h, "HDD") || has(h, "ROTATIONAL") || is_lit(h, "3") {
        string_of("HDD")
    } else if has(h, "UNKNOWN") || has(h, "UNSPECIFIED") || crate::text::trim_chars(h).len() == 0 {
        string_of("Unknown")
    } else {
        let t = trim_str(raw);
        from_chars(t.as_slice())
    }
}

/// The `Some` text or the default.
pub open spec fn text_or(o: Option<String>, d: Seq<char>) -> Seq<char> {
    match o {
        Some(s) => s@,
        None => d,
    }
}

/// Whether the bus makes the disk removable: USB, SD or MMC by number
/// (7, 12, 13) or by name.
pub open spec fn spec_removable_bus(bus_type: u64, bus_name: Seq<char>) -> bool {
    bus_type == 7 || bus_type == 12 || bus_type == 13 || contains(unicode_upper(bus_name), "USB"@)
        || unicode_upper(bus_name) == "SD"@ || unicode_upper(bus_name) == "MMC"@
}

/// The disk as listed, from its PowerShell record.
pub open spec fn is_listed_ps_disk(r: DiskInfo, d: PsDisk) -> bool {
    let bus_name = text_or(d.bus_name, "Other"@);
    let removable = spec_removable_bus(d.bus_type, bus_name);
    &&& r.id@ == "disk"@ + decimal(d.number as nat)
    &&& r.name@ == text_or(d.friendly_name, "Unknown"@)
    &&& r.size == d.size
    &&& r.removable == removable
    &&& r.device@ == "PhysicalDrive"@ + decimal(d.number as nat)
    &&& r.drive_type@ == (if removable {
        "Removable"@
    } else {
        "Fixed ("@ + bus_name + ")"@
    })
    &&& r.media_type@ == spec_normalize_media_type(text_or(d.media_type, Seq::empty()))
    &&& r.index@ == decimal(d.number as nat)
    &&& r.volume@ == text_or(d.volume_letter, Seq::empty())
    &&& r.is_system == (d.is_system || d.is_boot)
}

fn text_or_exec(o: &Option<String>, d: &str) -> (r: String)
    ensures
        r@ == text_or(*o, d@),
{
    match o {
        Some(s) => s.clone(),
        None => string_of(d),
    }
}

/// A listed disk from its PowerShell record.
pub fn parse_disk(d: &PsDisk) -> (r: DiskInfo)
    ensures
        is_listed_ps_disk(r, *d),
{
    let bus_name = text_or_exec(&d.bus_name, "Other");
    let removable = if d.bus_type == 7 || d.bus_type == 12 || d.bus_type == 13 {
        true
    } else {
        let u = to_uppercase(bus_name.as_str());
        let up = to_chars(u.as_str());
        has(up.as_slice(), "USB") || is_lit(up.as_slice(), "SD") || is_lit(up.as_slice(), "MMC")
    };
    let mut id = string_of("disk");
    push_decimal(&mut id, d.number);
    let mut device = string_of("PhysicalDrive");
    push_decimal(&mut device, d.number);
    let drive_type = if removable {
        string_of("Removable")
    } else {
        let mut t = string_of("Fixed (");
        push_str(&mut t, bus_name.as_str());
        push_str(&mut t, ")");
        t
    };
    let media_raw = text_or_exec(&d.media_type, "");
    proof {
        reveal_strlit("");
    }
    let mut index = String::new();
    push_decimal(&mut index, d.number);
    let volume = text_or_exec(&d.volume_letter, "");
    assert(""@ =~= Seq::<char>::empty());
    let media_type = normalize_media_type(media_raw.as_str());
    assert(media_type@ == spec_normalize_media_type(text_or(d.media_type, Seq::empty())));
    assert(volume@ == text_or(d.volume_letter, Seq::empty()));
    assert(drive_type@ == (if removable {
        "Removable"@
    } else {
        "Fixed ("@ + text_or(d.bus_name, "Other"@) + ")"@
    }));
    assert(removable == spec_removable_bus(d.bus_type, text_or(d.bus_name, "Other"@)));
    assert(index@ =~= decimal(d.number as nat));
    DiskInfo {
        id,
        name: text_or_exec(&d.friendly_name, "Unknown"),
        size: d.size,
        removable,
        device,
        drive_type,
        media_type,
        index,
        volume,
        is_system: d.is_system || d.is_boot,
    }
}

/// Where the JSON starts in PowerShell's output: the trimmed output from
/// its first `[` (else its first `{`), and whether that is a list.
pub open spec fn spec_json_portion(output: Seq<char>) -> Option<(Seq<char>, bool)> {
    let t = trim(output);
    match find(t, "["@) {
        Some(i) => Some((t.skip(i), true)),
        None => match find(t, "{"@) {
            Some(i) => Some((t.skip(i), false)),
            None => None,
        },
    }
}

/// The JSON part of PowerShell's output, if any.
pub fn json_portion(output: &str) -> (r: Option<(String, bool)>)
    ensures
        match r {
            Some((s, list)) => spec_json_portion(output@) == Some((s@, list)),
            None => spec_json_portion(output@) is None,
        },
{
    let t = trim_str(output);
    let lb = to_chars("[");
    let cb = to_chars("{");
    proof {
        crate::text::lemma_find_at_result(t@, "["@, 0);
        crate::text::lemma_find_at_result(t@, "{"@, 0);
        reveal_strlit("[");
        reveal_strlit("{");
    }
    match crate::text::find_chars(t.as_slice(), lb.as_slice()) {
        Some(i) => {
            let rest = crate::text::slice_chars(t.as_slice(), i, t.len());
            assert(rest@ =~= t@.skip(i as int));
            Some((from_chars(rest.as_slice()), true))
        },
        None => match crate::text::find_chars(t.as_slice(), cb.as_slice()) {
            Some(i) => {
                let rest = crate::text::slice_chars(t.as_slice(), i, t.len());
                assert(rest@ =~= t@.skip(i as int));
                Some((from_chars(rest.as_slice()), false))
            },
            None => None,
        },
    }
}

/// The marker the partition listing prints before its JSON.
pub open spec fn json_marker() -> Seq<char> {
    "__WTGA_JSON__"@
}

/// The JSON text of the partition listing's output: what follows the last
/// `__WTGA_JSON__` marker, trimmed; without a marker, the trimmed output
/// from its first `[` (else its first `{`, else all of it). None when that
/// is empty or `null` in any case.
pub open spec fn spec_partition_json(output: Seq<char>) -> Option<Seq<char>> {
    let t = trim(output);
    let j = match rfind(t, json_marker()) {
        Some(m) => trim(t.skip(m + json_marker().len())),
        None => match find(t, "["@) {
            Some(i) => t.skip(i),
            None => match find(t, "{"@) {
                Some(i) => t.skip(i),
                None => t,
            },
        },
    };
    if j.len() == 0 || eq_ignore_case(j, "null"@) {
        None
    } else {
        Some(j)
    }
}

/// The JSON text of the partition listing, if it printed any.
pub fn partition_json(output: &str) -> (r: Option<String>)
    ensures
        match r {
            Some(j) => spec_partition_json(output@) == Some(j@),
            None => spec_partition_json(output@) is None,
        },
{
    let t = trim_str(output);
    let marker = to_chars("__WTGA_JSON__");
    let lb = to_chars("[");
    let cb = to_chars("{");
    let null = to_chars("null");
    let ts = t.as_slice();
    let j: Vec<char> = match crate::text::rfind_chars(ts, marker.as_slice()) {
        Some(m) => {
            assert(occurs_at(t@, marker@, m as int));
            let ml = marker.len();
            let tl = t.len();
            assert(m + ml <= tl);
            let rest = crate::text::slice_chars(ts, m + ml, tl);
            assert(rest@ =~= t@.skip(m + json_marker().len()));
            crate::text::trim_chars(rest.as_slice())
        },
        None => match crate::text::find_chars(ts, lb.as_slice()) {
            Some(i) => {
                proof {
                    crate::text::lemma_find_at_result(t@, "["@, 0);
                }
                let rest = crate::text::slice_chars(ts, i, t.len());
                assert(rest@ =~= t@.skip(i as int));
                rest
            },
            None => match crate::text::find_chars(ts, cb.as_slice()) {
                Some(i) => {
                    proof {
                        crate::text::lemma_find_at_result(t@, "{"@, 0);
                    }
                    let rest = crate::text::slice_chars(ts, i, t.len());
                    assert(rest@ =~= t@.skip(i as int));
                    rest
                },
                None => crate::text::slice_chars(ts, 0, t.len()),
            },
        },
    };
    assert(t@.subrange(0, t@.len() as int) =~= t@);
    if j.len() == 0 || eq_ignore_case_chars(j.as_slice(), null.as_slice()) {
        None
    } else {
        Some(from_chars(j.as_slice()))
    }
}

/// Partition listing where the platform is not Windows.
pub fn partition_listing_unsupported() -> (r: AppError)
    ensures
        r matches AppError::Unsupported(m) && m@ == "Partition listing only implemented on Windows"@,
{
    AppError::Unsupported(string_of("Partition listing only implemented on Windows"))
}

/// The disk with the given id among the listed ones (the first such), or
/// `DeviceNotFound` carrying the id.
pub fn get_disk_info(disks: Vec<DiskInfo>, disk_id: &str) -> (r: Result<DiskInfo, AppError>)
    ensures
        match r {
            Ok(d) => exists|i: int| 0 <= i < disks@.len() && disks@[i] == d && d.id@ == disk_id@
                && forall|j: int| 0 <= j < i ==> disks@[j].id@ != disk_id@,
            Err(e) => (e matches AppError::DeviceNotFound(m) && m@ == disk_id@) && forall|j: int|
                0 <= j < disks@.len() ==> disks@[j].id@ != disk_id@,
        },
{
    let want = to_chars(disk_id);
    let mut i: usize = 0;
    while i < disks.len()
        invariant
            i <= disks@.len(),
            want@ == disk_id@,
            forall|j: int| 0 <= j < i ==> disks@[j].id@ != disk_id@,
        decreases disks@.len() - i,
    {
        let c = to_chars(disks[i].id.as_str());
        if crate::text::chars_eq(c.as_slice(), want.as_slice()) {
            return Ok(disks[i].copy());
        }
        i = i + 1;
    }
    Err(AppError::DeviceNotFound(string_of(disk_id)))
}


// ---------------------------------------------------------------------------
// macOS: diskutil records
// ---------------------------------------------------------------------------

/// A disk identifier as diskutil names whole disks: `disk<digits>`, with or
/// without `/dev/`, surrounding blanks ignored.
pub open spec fn spec_normalize_disk_id(input: Seq<char>) -> Option<Seq<char>> {
    let t = trim(input);
    let c = if starts_with(t, "/dev/"@) {
        t.skip(5)
    } else {
        t
    };
    if starts_with(c, "disk"@) && c.len() > 4 && all_digits(c.skip(4)) {
        Some(c)
    } else {
        None
    }
}

fn all_digits_chars(s: &[char]) -> (r: bool)
    ensures
        r == all_digits(s@),
{
    let mut i: usize = 0;
    while i < s.len()
        invariant
            i <= s@.len(),
            forall|k: int| 0 <= k < i ==> crate::text::is_digit(#[trigger] s@[k]),
        decreases s@.len() - i,
    {
        if !is_digit_char(s[i]) {
            return false;
        }
        i = i + 1;
    }
    true
}

pub fn normalize_disk_id(input: &str) -> (r: Option<String>)
    ensures
        match r {
            Some(x) => spec_normalize_disk_id(input@) == Some(x@),
            None => spec_normalize_disk_id(input@) is None,
        },
{
    let t = trim_str(input);
    let dev = to_chars("/dev/");
    proof {
        reveal_strlit("/dev/");
        reveal_strlit("disk");
    }
    let c = if starts_with_chars(t.as_slice(), dev.as_slice()) {
        crate::text::slice_chars(t.as_slice(), 5, t.len())
    } else {
        crate::text::slice_chars(t.as_slice(), 0, t.len())
    };
    assert(c@ =~= (if starts_with(t@, "/dev/"@) {
        t@.skip(5)
    } else {
        t@
    }));
    let disk = to_chars("disk");
    if starts_with_chars(c.as_slice(), disk.as_slice()) && c.len() > 4 {
        let suffix = crate::text::slice_chars(c.as_slice(), 4, c.len());
        assert(suffix@ =~= c@.skip(4));
        if all_digits_chars(suffix.as_slice()) {
            return Some(from_chars(c.as_slice()));
        }
    }
    None
}

/// What the listing reads of `diskutil info -plist` for one disk (texts
/// trimmed, absent ones empty; absent flags false; absent sizes 0).
#[derive(Debug, Clone)]
pub struct MacDiskFacts {
    pub device_identifier: String,
    pub device_node: String,
    pub media_name: String,
    pub io_registry_entry_name: String,
    pub bus_protocol: String,
    pub virtual_or_physical: String,
    pub parent_whole_disk: String,
    pub internal: bool,
    pub removable_media_or_external_device: bool,
    pub removable_media: bool,
    pub ejectable: bool,
    pub solid_state: bool,
    pub whole_disk: bool,
    pub total_size: u64,
    pub size: u64,
    pub iokit_size: u64,
}

pub open spec fn spec_mac_media_type(f: MacDiskFacts) -> Seq<char> {
    if f.solid_state {
        "SSD"@
    } else if eq_ignore_case(f.bus_protocol@, "USB"@) {
        "USB"@
    } else if contains(ascii_upper(f.media_name@), "SSD"@) || contains(ascii_upper(f.media_name@), "NVME"@) {
        "SSD"@
    } else if contains(ascii_upper(f.media_name@), "HDD"@) {
        "HDD"@
    } else {
        "Unknown"@
    }
}

/// The media type of a macOS disk.
pub fn parse_media_type(f: &MacDiskFacts) -> (r: String)
    ensures
        r@ == spec_mac_media_type(*f),
{
    if f.solid_state {
        return string_of("SSD");
    }
    let b = to_chars(f.bus_protocol.as_str());
    let usb = to_chars("USB");
    if eq_ignore_case_chars(b.as_slice(), usb.as_slice()) {
        return string_of("USB");
    }
    let m = to_chars(f.media_name.as_str());
    let up = upper_chars(m.as_slice());
    if has(up.as_slice(), "SSD") || has(up.as_slice(), "NVME") {
        return string_of("SSD");
    }
    if has(up.as_slice(), "HDD") {
        return string_of("HDD");
    }
    string_of("Unknown")
}

/// `s` without the leading copies of `p` (`trim_start_matches`).
pub open spec fn strip_all_prefix(s: Seq<char>, p: Seq<char>) -> Seq<char>
    decreases s.len(),
{
    if p.len() > 0 && starts_with(s, p) {
        strip_all_prefix(s.skip(p.len() as int), p)
    } else {
        s
    }
}

fn strip_all_prefix_chars(s: &[char], p: &[char]) -> (r: Vec<char>)
    ensures
        r@ == strip_all_prefix(s@, p@),
{
    let mut i: usize = 0;
    assert(s@.skip(0) =~= s@);
    while p.len() > 0 && p.len() <= s.len() - i && crate::text::matches_at(s, p, i)
        invariant
            i <= s@.len(),
            strip_all_prefix(s@, p@) == strip_all_prefix(s@.skip(i as int), p@),
        decreases s@.len() - i,
    {
        assert(s@.skip(i as int).subrange(0, p@.len() as int) =~= s@.subrange(i as int, i + p@.len()));
        assert(s@.skip(i as int).skip(p@.len() as int) =~= s@.skip(i + p@.len()));
        i = i + p.len();
    }
    if p.len() > 0 && p.len() <= s.len() - i {
        assert(s@.skip(i as int).subrange(0, p@.len() as int) =~= s@.subrange(i as int, i + p@.len()));
    }
    let r = crate::text::slice_chars(s, i, s.len());
    assert(r@ =~= s@.skip(i as int));
    r
}

/// The disk as listed, from its diskutil record and its volume.
pub open spec fn is_listed_mac_disk(r: DiskInfo, f: MacDiskFacts, volume: Seq<char>) -> bool {
    let removable = f.removable_media_or_external_device || f.removable_media || f.ejectable
        || !f.internal || eq_ignore_case(f.bus_protocol@, "USB"@);
    &&& r.id@ == f.device_identifier@
    &&& r.name@ == (if f.media_name@.len() > 0 {
        f.media_name@
    } else if f.io_registry_entry_name@.len() > 0 {
        f.io_registry_entry_name@
    } else {
        f.device_identifier@
    })
    &&& r.size == (if f.total_size > 0 {
        f.total_size
    } else if f.size > 0 {
        f.size
    } else {
        f.iokit_size
    })
    &&& r.removable == removable
    &&& r.device@ == f.device_node@
    &&& r.drive_type@ == (if f.bus_protocol@.len() == 0 {
        if f.internal {
            "Fixed"@
        } else {
            "External"@
        }
    } else {
        f.bus_protocol@
    })
    &&& r.media_type@ == spec_mac_media_type(f)
    &&& r.index@ == strip_all_prefix(f.device_identifier@, "disk"@)
    &&& r.volume@ == volume
    &&& r.is_system == f.internal
}

/// A listed macOS disk from its diskutil record and volume.
pub fn build_disk_info(f: &MacDiskFacts, volume: String) -> (r: DiskInfo)
    ensures
        is_listed_mac_disk(r, *f, volume@),
{
    let name = if f.media_name.unicode_len() > 0 {
        f.media_name.clone()
    } else if f.io_registry_entry_name.unicode_len() > 0 {
        f.io_registry_entry_name.clone()
    } else {
        f.device_identifier.clone()
    };
    let b = to_chars(f.bus_protocol.as_str());
    let usb = to_chars("USB");
    let removable = f.removable_media_or_external_device || f.removable_media || f.ejectable || !f.internal
        || eq_ignore_case_chars(b.as_slice(), usb.as_slice());
    let drive_type = if b.len() == 0 {
        if f.internal {
            string_of("Fixed")
        } else {
            string_of("External")
        }
    } else {
        f.bus_protocol.clone()
    };
    let size = if f.total_size > 0 {
        f.total_size
    } else if f.size > 0 {
        f.size
    } else {
        f.iokit_size
    };
    let id = to_chars(f.device_identifier.as_str());
    let disk = to_chars("disk");
    let index = strip_all_prefix_chars(id.as_slice(), disk.as_slice());
    DiskInfo {
        id: f.device_identifier.clone(),
        name,
        size,
        removable,
        device: f.device_node.clone(),
        drive_type,
        media_type: parse_media_type(f),
        index: from_chars(index.as_slice()),
        volume,
        is_system: f.internal,
    }
}

/// Whether a diskutil record is listed: a whole, physical disk.
pub fn mac_disk_listed(f: &MacDiskFacts) -> (r: bool)
    ensures
        r == (f.whole_disk && !eq_ignore_case(f.virtual_or_physical@, "Virtual"@)),
{
    let v = to_chars(f.virtual_or_physical.as_str());
    let virt = to_chars("Virtual");
    f.whole_disk && !eq_ignore_case_chars(v.as_slice(), virt.as_slice())
}

/// A partition of a listed disk: its mount point and volume name (empty
/// when absent).
#[derive(Debug, Clone)]
pub struct MacPartition {
    pub mount_point: String,
    pub volume_name: String,
}

/// A disk's volume: the first partition's mount point that is set, else the
/// first partition's mount point or volume name that is set, else empty.
pub open spec fn spec_disk_volume(ps: Seq<MacPartition>) -> Seq<char> {
    match first_mount(ps) {
        Some(m) => m,
        None => match first_named(ps) {
            Some(n) => n,
            None => Seq::empty(),
        },
    }
}

pub open spec fn first_mount(ps: Seq<MacPartition>) -> Option<Seq<char>>
    decreases ps.len(),
{
    if ps.len() == 0 {
        None
    } else if ps[0].mount_point@.len() > 0 {
        Some(ps[0].mount_point@)
    } else {
        first_mount(ps.drop_first())
    }
}

pub open spec fn first_named(ps: Seq<MacPartition>) -> Option<Seq<char>>
    decreases ps.len(),
{
    if ps.len() == 0 {
        None
    } else if ps[0].mount_point@.len() > 0 {
        Some(ps[0].mount_point@)
    } else if ps[0].volume_name@.len() > 0 {
        Some(ps[0].volume_name@)
    } else {
        first_named(ps.drop_first())
    }
}

/// The volume shown for a disk with these partitions.
pub fn disk_volume(ps: &Vec<MacPartition>) -> (r: String)
    ensures
        r@ == spec_disk_volume(ps@),
{
    let mut i: usize = 0;
    assert(ps@.skip(0) =~= ps@);
    while i < ps.len()
        invariant
            i <= ps@.len(),
            first_mount(ps@) == first_mount(ps@.skip(i as int)),
        decreases ps@.len() - i,
    {
        assert(ps@.skip(i as int)[0] == ps@[i as int]);
        assert(ps@.skip(i as int).drop_first() =~= ps@.skip(i + 1));
        if ps[i].mount_point.unicode_len() > 0 {
            return ps[i].mount_point.clone();
        }
        i = i + 1;
    }
    let mut j: usize = 0;
    while j < ps.len()
        invariant
            j <= ps@.len(),
            first_mount(ps@) is None,
            first_named(ps@) == first_named(ps@.skip(j as int)),
        decreases ps@.len() - j,
    {
        assert(ps@.skip(j as int)[0] == ps@[j as int]);
        assert(ps@.skip(j as int).drop_first() =~= ps@.skip(j + 1));
        if ps[j].mount_point.unicode_len() > 0 {
            return ps[j].mount_point.clone();
        }
        if ps[j].volume_name.unicode_len() > 0 {
            return ps[j].volume_name.clone();
        }
        j = j + 1;
    }
    String::new()
}

// ---------------------------------------------------------------------------
// Partitions with drive letters (Windows)
// ---------------------------------------------------------------------------

/// A JSON scalar as the partition listing reads it.
#[derive(Debug, Clone)]
pub enum JsonScalar {
    Bool(bool),
    Unsigned(u64),
    Text(String),
    Other,
}

/// A mounted partition with a drive letter.
#[derive(Debug, Clone)]
pub struct PartitionInfo {
    pub drive_letter: String,
    pub label: String,
    pub filesystem: String,
    pub size: u64,
    pub free: u64,
    pub disk_number: u32,
    pub protocol: String,
    pub media_type: String,
    pub has_windows: bool,
    pub windows_name: String,
}

/// A number: the value itself, or a text holding one (trimmed), else 0.
pub open spec fn spec_json_u64(v: JsonScalar) -> u64 {
    match v {
        JsonScalar::Unsigned(n) => n,
        JsonScalar::Text(s) => match crate::text::parse_u64(trim(s@)) {
            Some(n) => n,
            None => 0,
        },
        _ => 0,
    }
}

pub fn json_u64(v: &JsonScalar) -> (r: u64)
    ensures
        r == spec_json_u64(*v),
{
    match v {
        JsonScalar::Unsigned(n) => *n,
        JsonScalar::Text(s) => {
            let t = trim_str(s.as_str());
            match crate::text::parse_u64_chars(t.as_slice()) {
                Some(n) => n,
                None => 0,
            }
        },
        _ => 0,
    }
}

/// A flag: the value itself, or a text equal to `true` ignoring case.
pub open spec fn spec_json_bool(v: JsonScalar) -> bool {
    match v {
        JsonScalar::Bool(b) => b,
        JsonScalar::Text(s) => eq_ignore_case(s@, "true"@),
        _ => false,
    }
}

pub fn json_bool(v: &JsonScalar) -> (r: bool)
    ensures
        r == spec_json_bool(*v),
{
    match v {
        JsonScalar::Bool(b) => *b,
        JsonScalar::Text(s) => {
            let c = to_chars(s.as_str());
            let t = to_chars("true");
            eq_ignore_case_chars(c.as_slice(), t.as_slice())
        },
        _ => false,
    }
}

/// The text, or empty when the value is not text.
pub open spec fn json_text(v: JsonScalar) -> Seq<char> {
    match v {
        JsonScalar::Text(s) => s@,
        _ => Seq::empty(),
    }
}

fn json_text_exec(v: &JsonScalar) -> (r: String)
    ensures
        r@ == json_text(*v),
{
    match v {
        JsonScalar::Text(s) => s.clone(),
        _ => String::new(),
    }
}

/// `s` without trailing `:` characters.
pub open spec fn trim_colons(s: Seq<char>) -> Seq<char>
    decreases s.len(),
{
    if s.len() > 0 && s.last() == ':' {
        trim_colons(s.drop_last())
    } else {
        s
    }
}

/// The drive letter: the first character of the trimmed text (trailing `:`
/// dropped) when it is an ASCII letter, upper-cased; else empty.
pub open spec fn spec_drive_letter(v: JsonScalar) -> Seq<char> {
    let raw = trim_colons(trim(json_text(v)));
    if raw.len() > 0 && crate::text::is_alpha(raw[0]) {
        seq![upper_char_spec(raw[0])]
    } else {
        Seq::empty()
    }
}

pub open spec fn upper_char_spec(c: char) -> char {
    crate::text::upper_char(c)
}

pub fn normalize_drive_letter(v: &JsonScalar) -> (r: String)
    ensures
        r@ == spec_drive_letter(*v),
{
    let t = json_text_exec(v);
    let c = trim_str(t.as_str());
    let mut n: usize = c.len();
    assert(c@.take(n as int) =~= c@);
    while n > 0 && c[n - 1] == ':'
        invariant
            n <= c@.len(),
            trim_colons(c@) == trim_colons(c@.take(n as int)),
        decreases n,
    {
        assert(c@.take(n as int).drop_last() =~= c@.take(n - 1));
        n = n - 1;
    }
    assert(trim_colons(c@.take(n as int)) == c@.take(n as int));
    if n > 0 {
        let ch = c[0];
        if ('a' <= ch && ch <= 'z') || ('A' <= ch && ch <= 'Z') {
            let mut r = String::new();
            crate::text::push_char(&mut r, crate::text::upper_char_exec(ch));
            assert(r@ =~= seq![crate::text::upper_char(ch)]);
            return r;
        }
    }
    String::new()
}

/// The media type of a partition's disk: by text (as for disks, trimmed
/// first) or by number (4 SSD, 3 HDD).
pub open spec fn spec_partition_media(v: JsonScalar) -> Seq<char> {
    match v {
        JsonScalar::Text(raw) => {
            let up = unicode_upper(trim(raw@));
            if contains(up, "SSD"@) || contains(up, "NVME"@) || up == "4"@ {
                "SSD"@
            } else if contains(up, "HDD"@) || contains(up, "ROTATIONAL"@) || up == "3"@ {
                "HDD"@
            } else if contains(up, "UNKNOWN"@) || contains(up, "UNSPECIFIED"@) || up.len() == 0 {
                "Unknown"@
            } else {
                trim(raw@)
            }
        },
        _ => {
            let n = match v {
                JsonScalar::Unsigned(n) => n,
                _ => 0,
            };
            if n == 4 {
                "SSD"@
            } else if n == 3 {
                "HDD"@
            } else {
                "Unknown"@
            }
        },
    }
}

pub fn partition_media_type(v: &JsonScalar) -> (r: String)
    ensures
        r@ == spec_partition_media(*v),
{
    match v {
        JsonScalar::Text(raw) => {
            let t = trim_str(raw.as_str());
            let ts = from_chars(t.as_slice());
            let u = to_uppercase(ts.as_str());
            let up = to_chars(u.as_str());
            let h = up.as_slice();
            if has(h, "SSD") || has(h, "NVME") || is_lit(h, "4") {
                string_of("SSD")
            } else if has(h, "HDD") || has(h, "ROTATIONAL") || is_lit(h, "3") {
                string_of("HDD")
            } else if has(h, "UNKNOWN") || has(h, "UNSPECIFIED") || up.len() == 0 {
                string_of("Unknown")
            } else {
                ts
            }
        },
        JsonScalar::Unsigned(n) => if *n == 4 {
            string_of("SSD")
        } else if *n == 3 {
            string_of("HDD")
        } else {
            string_of("Unknown")
        },
        _ => string_of("Unknown"),
    }
}

/// The protocol name for PowerShell's bus text (name or number), upper-cased
/// and trimmed; `Unknown` for anything else.
pub open spec fn spec_protocol(v: JsonScalar) -> Seq<char> {
    let raw = match v {
        JsonScalar::Text(s) => unicode_upper(trim(s@)),
        _ => Seq::empty(),
    };
    if raw == "17"@ || raw == "NVME"@ {
        "NVMe"@
    } else if raw == "11"@ || raw == "SATA"@ {
        "SATA"@
    } else if raw == "7"@ || raw == "USB"@ {
        "USB"@
    } else if raw == "10"@ || raw == "SAS"@ {
        "SAS"@
    } else if raw == "8"@ || raw == "RAID"@ {
        "RAID"@
    } else if raw == "3"@ || raw == "ATA"@ {
        "ATA"@
    } else if raw == "1"@ || raw == "SCSI"@ {
        "SCSI"@
    } else if raw == "2"@ || raw == "ATAPI"@ {
        "ATAPI"@
    } else if raw == "12"@ || raw == "SD"@ {
        "SD"@
    } else if raw == "13"@ || raw == "MMC"@ {
        "MMC"@
    } else {
        "Unknown"@
    }
}

pub fn normalize_protocol(v: &JsonScalar) -> (r: String)
    ensures
        r@ == spec_protocol(*v),
{
    let raw: Vec<char> = match v {
        JsonScalar::Text(s) => {
            let t = trim_str(s.as_str());
            let ts = from_chars(t.as_slice());
            let u = to_uppercase(ts.as_str());
            to_chars(u.as_str())
        },
        _ => Vec::new(),
    };
    proof {
        reveal_strlit("");
    }
    let h = raw.as_slice();
    if is_lit(h, "17") || is_lit(h, "NVME") {
        string_of("NVMe")
    } else if is_lit(h, "11") || is_lit(h, "SATA") {
        string_of("SATA")
    } else if is_lit(h, "7") || is_lit(h, "USB") {
        string_of("USB")
    } else if is_lit(h, "10") || is_lit(h, "SAS") {
        string_of("SAS")
    } else if is_lit(h, "8") || is_lit(h, "RAID") {
        string_of("RAID")
    } else if is_lit(h, "3") || is_lit(h, "ATA") {
        string_of("ATA")
    } else if is_lit(h, "1") || is_lit(h, "SCSI") {
        string_of("SCSI")
    } else if is_lit(h, "2") || is_lit(h, "ATAPI") {
        string_of("ATAPI")
    } else if is_lit(h, "12") || is_lit(h, "SD") {
        string_of("SD")
    } else if is_lit(h, "13") || is_lit(h, "MMC") {
        string_of("MMC")
    } else {
        string_of("Unknown")
    }
}

/// What the partition listing reads of one PowerShell record.
#[derive(Debug, Clone)]
pub struct PsPartition {
    pub drive_letter: JsonScalar,
    pub label: JsonScalar,
    pub file_system: JsonScalar,
    pub size: JsonScalar,
    pub free: JsonScalar,
    pub disk_number: JsonScalar,
    pub protocol: JsonScalar,
    pub media_type: JsonScalar,
    pub has_windows: JsonScalar,
    pub windows_name: JsonScalar,
}

/// A partition as listed; none without a drive letter.
pub fn parse_partition_info(v: &PsPartition) -> (r: Option<PartitionInfo>)
    ensures
        spec_drive_letter(v.drive_letter).len() == 0 <==> r is None,
        r matches Some(p) ==> {
            &&& p.drive_letter@ == spec_drive_letter(v.drive_letter)
            &&& p.label@ == json_text(v.label)
            &&& p.filesystem@ == json_text(v.file_system)
            &&& p.size == spec_json_u64(v.size)
            &&& p.free == spec_json_u64(v.free)
            &&& p.disk_number == spec_json_u64(v.disk_number) as u32
            &&& p.protocol@ == spec_protocol(v.protocol)
            &&& p.media_type@ == spec_partition_media(v.media_type)
            &&& p.has_windows == spec_json_bool(v.has_windows)
            &&& p.windows_name@ == trim(json_text(v.windows_name))
        },
{
    let letter = normalize_drive_letter(&v.drive_letter);
    if letter.unicode_len() == 0 {
        return None;
    }
    let wn = json_text_exec(&v.windows_name);
    let wt = trim_str(wn.as_str());
    Some(
        PartitionInfo {
            drive_letter: letter,
            label: json_text_exec(&v.label),
            filesystem: json_text_exec(&v.file_system),
            size: json_u64(&v.size),
            free: json_u64(&v.free),
            disk_number: json_u64(&v.disk_number) as u32,
            protocol: normalize_protocol(&v.protocol),
            media_type: partition_media_type(&v.media_type),
            has_windows: json_bool(&v.has_windows),
            windows_name: from_chars(wt.as_slice()),
        },
    )
}


/// The key macOS disks are listed by: the index as a number, else last.
pub open spec fn index_key(d: DiskInfo) -> u32 {
    match crate::text::parse_u32(d.index@) {
        Some(v) => v,
        None => u32::MAX,
    }
}

/// Where `x` goes in `s`: after every entry whose key is not larger.
pub open spec fn insert_pos(s: Seq<DiskInfo>, x: DiskInfo) -> int
    decreases s.len(),
{
    if s.len() == 0 {
        0
    } else if index_key(s.last()) <= index_key(x) {
        s.len() as int
    } else {
        insert_pos(s.drop_last(), x)
    }
}

/// The disks ordered by index key, equal keys kept in their order.
pub open spec fn sort_by_index(s: Seq<DiskInfo>) -> Seq<DiskInfo>
    decreases s.len(),
{
    if s.len() == 0 {
        s
    } else {
        let t = sort_by_index(s.drop_last());
        t.insert(insert_pos(t, s.last()), s.last())
    }
}

proof fn lemma_insert_pos_bound(s: Seq<DiskInfo>, x: DiskInfo)
    ensures
        0 <= insert_pos(s, x) <= s.len(),
    decreases s.len(),
{
    if s.len() > 0 {
        lemma_insert_pos_bound(s.drop_last(), x);
    }
}

fn index_key_of(d: &DiskInfo) -> (k: u32)
    ensures
        k == index_key(*d),
{
    let c = to_chars(d.index.as_str());
    match crate::text::parse_u32_chars(c.as_slice()) {
        Some(v) => v,
        None => u32::MAX,
    }
}

/// Orders the listed disks by disk number (stable; unnumbered ones last).
pub fn sort_disks_by_index(disks: Vec<DiskInfo>) -> (r: Vec<DiskInfo>)
    ensures
        r@ == sort_by_index(disks@),
{
    let mut out: Vec<DiskInfo> = Vec::new();
    let mut i: usize = 0;
    while i < disks.len()
        invariant
            i <= disks@.len(),
            out@ == sort_by_index(disks@.take(i as int)),
        decreases disks@.len() - i,
    {
        let x = disks[i].copy();
        let kx = index_key_of(&x);
        let mut pos: usize = out.len();
        proof {
            assert(out@.take(pos as int) =~= out@);
        }
        while pos > 0 && index_key_of(&out[pos - 1]) > kx
            invariant
                pos <= out@.len(),
                kx == index_key(x),
                insert_pos(out@, x) == insert_pos(out@.take(pos as int), x),
            decreases pos,
        {
            assert(out@.take(pos as int).drop_last() =~= out@.take(pos - 1));
            pos = pos - 1;
        }
        proof {
            if pos > 0 {
                assert(out@.take(pos as int).last() == out@[pos - 1]);
            }
            assert(insert_pos(out@.take(pos as int), x) == pos);
            assert(disks@.take(i + 1).drop_last() =~= disks@.take(i as int));
            assert(disks@.take(i + 1).last() == x);
        }
        out.insert(pos, x);
        i = i + 1;
    }
    assert(disks@.take(i as int) =~= disks@);
    out
}

/// Disks in non-decreasing order of their index key.
pub open spec fn keys_sorted(t: Seq<DiskInfo>) -> bool {
    forall|i: int, j: int| 0 <= i <= j < t.len() ==> index_key(t[i]) <= index_key(t[j])
}

proof fn lemma_insert_pos_split(t: Seq<DiskInfo>, x: DiskInfo)
    requires
        keys_sorted(t),
    ensures
        0 <= insert_pos(t, x) <= t.len(),
        forall|i: int| 0 <= i < insert_pos(t, x) ==> index_key(#[trigger] t[i]) <= index_key(x),
        forall|i: int| insert_pos(t, x) <= i < t.len() ==> index_key(#[trigger] t[i]) > index_key(x),
    decreases t.len(),
{
    if t.len() > 0 {
        if index_key(t.last()) <= index_key(x) {
            assert forall|i: int| 0 <= i < t.len() implies index_key(#[trigger] t[i]) <= index_key(
                x,
            ) by {
                assert(index_key(t[i]) <= index_key(t[t.len() - 1]));
            }
        } else {
            let d = t.drop_last();
            assert(keys_sorted(d)) by {
                assert forall|i: int, j: int| 0 <= i <= j < d.len() implies index_key(d[i])
                    <= index_key(d[j]) by {
                    assert(d[i] == t[i] && d[j] == t[j]);
                }
            }
            lemma_insert_pos_split(d, x);
            assert forall|i: int| insert_pos(t, x) <= i < t.len() implies index_key(#[trigger] t[i])
                > index_key(x) by {
                if i < t.len() - 1 {
                    assert(t[i] == d[i]);
                }
            }
            assert forall|i: int| 0 <= i < insert_pos(t, x) implies index_key(#[trigger] t[i])
                <= index_key(x) by {
                assert(t[i] == d[i]);
            }
        }
    }
}

/// The macOS disk listing comes out ordered by disk number, and holds
/// exactly the disks that were listed, each as often as before.
pub proof fn law_disk_listing_order(s: Seq<DiskInfo>)
    ensures
        keys_sorted(sort_by_index(s)),
        sort_by_index(s).to_multiset() == s.to_multiset(),
    decreases s.len(),
{
    broadcast use vstd::seq_lib::group_to_multiset_ensures;

    if s.len() == 0 {
        assert(sort_by_index(s) == s);
    } else {
        law_disk_listing_order(s.drop_last());
        let t = sort_by_index(s.drop_last());
        let x = s.last();
        let p = insert_pos(t, x);
        lemma_insert_pos_split(t, x);
        let u = t.insert(p, x);
        assert(sort_by_index(s) == u);
        assert forall|i: int, j: int| 0 <= i <= j < u.len() implies index_key(u[i]) <= index_key(
            u[j],
        ) by {
            if i < p {
                assert(u[i] == t[i]);
                if j < p {
                    assert(u[j] == t[j]);
                } else if j > p {
                    assert(u[j] == t[j - 1]);
                    assert(index_key(t[j - 1]) > index_key(x));
                }
            } else if i == p {
                if j > p {
                    assert(u[j] == t[j - 1]);
                    assert(index_key(t[j - 1]) > index_key(x));
                }
            } else {
                assert(u[i] == t[i - 1]);
                assert(u[j] == t[j - 1]);
            }
        }
        assert(u.remove(p) =~= t);
        assert(u[p] == x);
        assert(u.contains(x));
        assert(u.to_multiset().count(x) > 0);
        assert(u.to_multiset().remove(x) == t.to_multiset());
        assert(u.to_multiset() =~= t.to_multiset().insert(x));
        assert(s.drop_last().push(x) =~= s);
    }
}

/// Which whole disk `get_disk_info` describes for a (normalized) id: the
/// disk itself when it is whole, else its parent; an error when it has none.
pub fn mac_target_disk(disk_id: &str, normalized: &str, whole_disk: bool, parent_whole_disk: &str) -> (r: Result<String, AppError>)
    ensures
        whole_disk ==> (r matches Ok(t) && t@ == normalized@),
        !whole_disk && parent_whole_disk@.len() > 0 ==> (r matches Ok(t) && t@ == parent_whole_disk@),
        !whole_disk && parent_whole_disk@.len() == 0 ==> (r matches Err(AppError::DeviceNotFound(m)) && m@ == disk_id@),
{
    if whole_disk {
        Ok(string_of(normalized))
    } else if parent_whole_disk.unicode_len() > 0 {
        Ok(string_of(parent_whole_disk))
    } else {
        Err(AppError::DeviceNotFound(string_of(disk_id)))
    }
}

/// The error for a disk identifier that is not `disk<n>`.
pub fn invalid_disk_identifier(disk_id: &str) -> (r: AppError)
    ensures
        r matches AppError::InvalidParameter(m) && m@ == "Invalid disk identifier: "@ + disk_id@,
{
    let mut m = string_of("Invalid disk identifier: ");
    push_str(&mut m, disk_id);
    AppError::InvalidParameter(m)
}


/// What each platform provides for listing disks.
pub trait DiskOperations {
    /// The disks that can be written to.
    fn list_disks() -> Result<Vec<DiskInfo>, AppError>;

    /// One disk by its identifier.
    fn get_disk_info(disk_id: &str) -> Result<DiskInfo, AppError>;
}

} // verus!

//! diskpart scripts for partitioning and formatting the target disk.
//!
//! Each function returns the exact script text; running it is the caller's
//! part.

use crate::text::{
    contains, decimal, ends_with, occurs_at, push_char, push_decimal, push_str, str_contains,
    to_chars,
};
use vstd::prelude::*;

verus! {

/// The non-zero entries of `v`, in order.
pub open spec fn nonzero(v: Seq<u32>) -> Seq<u32>
    decreases v.len(),
{
    if v.len() == 0 {
        v
    } else if v.last() > 0 {
        nonzero(v.drop_last()).push(v.last())
    } else {
        nonzero(v.drop_last())
    }
}

/// `n.saturating_sub(1)`.
pub open spec fn sat_dec(n: nat) -> nat {
    if n == 0 {
        0
    } else {
        (n - 1) as nat
    }
}

/// `create partition primary size <v[i]>` for the first `n` entries of `v`.
pub open spec fn size_lines(v: Seq<u32>, n: int) -> Seq<char>
    decreases n,
{
    if n <= 0 {
        Seq::<char>::empty()
    } else {
        size_lines(v, n - 1) + "create partition primary size "@ + decimal(v[n - 1] as nat)
            + "\n"@
    }
}

/// Formats partitions `start .. start + n` as NTFS and gives each a letter.
pub open spec fn format_lines(start: nat, n: int) -> Seq<char>
    decreases n,
{
    if n <= 0 {
        Seq::<char>::empty()
    } else {
        format_lines(start, n - 1) + "select partition "@ + decimal((start + n - 1) as nat)
            + "\nformat fs=ntfs quick\nassign\n"@
    }
}

/// `&letter[..1]` is defined: the text starts with a one-byte character.
pub open spec fn has_ascii_head(s: Seq<char>) -> bool {
    s.len() > 0 && (s[0] as u32) < 128
}

pub open spec fn spec_gpt_uefi_script(
    efi_size: Seq<char>,
    disk_index: Seq<char>,
    letter: char,
    removable: bool,
    sizes: Seq<u32>,
) -> Seq<char> {
    let v = nonzero(sizes);
    let k = sat_dec(v.len()) as int;
    "select disk "@ + disk_index + "\nclean\nconvert gpt NOERR\n"@ + (if removable {
        "create partition primary size "@
    } else {
        "create partition efi size "@
    }) + efi_size + "\n"@ + size_lines(v, k) + "create partition primary\n"@ + (if removable {
        "select partition 2\n"@
    } else {
        "select partition 3\n"@
    }) + "format fs=ntfs quick\nassign letter="@ + seq![letter] + "\n"@ + format_lines(
        if removable {
            3
        } else {
            4
        },
        k,
    ) + (if removable {
        "select partition 1\nremove NOERR\n"@
    } else {
        "select partition 2\n"@
    }) + "format fs=fat32 quick\nassign\nexit\n"@
}

pub open spec fn spec_mbr_uefi_script(
    efi_size: Seq<char>,
    disk_index: Seq<char>,
    volume_letter: Seq<char>,
    sizes: Seq<u32>,
    keep_drive_letter: bool,
) -> Seq<char> {
    let v = nonzero(sizes);
    let k = sat_dec(v.len()) as int;
    "select disk "@ + disk_index + "\nclean\nconvert mbr\ncreate partition primary size "@
        + efi_size + "\n"@ + size_lines(v, k)
        + "create partition primary\nselect partition 2\nremove noerr\nformat fs=ntfs quick\n"@
        + (if keep_drive_letter {
        "assign letter="@ + seq![volume_letter[0]] + "\n"@
    } else {
        "assign\n"@
    }) + format_lines(3, k)
        + "select partition 1\nremove noerr\nformat fs=fat32 quick\nactive\nassign\nexit\n"@
}

pub open spec fn spec_repartition_script(letter: char, sizes: Seq<u32>) -> Seq<char> {
    let v = nonzero(sizes);
    let k = sat_dec(v.len()) as int;
    "select volume "@ + seq![letter] + "\nclean\nconvert mbr\n"@ + size_lines(v, k)
        + "create partition primary\nselect partition 1\nformat fs=ntfs quick\nactive\nassign letter="@
        + seq![letter] + "\n"@ + format_lines(2, k) + "exit\n"@
}

/// The non-zero partition sizes, in order.
pub fn nonzero_sizes(sizes: &[u32]) -> (r: Vec<u32>)
    ensures
        r@ == nonzero(sizes@),
        r@.len() <= sizes@.len(),
{
    let mut r: Vec<u32> = Vec::new();
    let mut i: usize = 0;
    while i < sizes.len()
        invariant
            i <= sizes@.len(),
            r@ == nonzero(sizes@.take(i as int)),
            r@.len() <= i,
        decreases sizes@.len() - i,
    {
        assert(sizes@.take(i + 1).drop_last() =~= sizes@.take(i as int));
        if sizes[i] > 0 {
            r.push(sizes[i]);
        }
        i = i + 1;
    }
    assert(sizes@.take(i as int) =~= sizes@);
    r
}

fn push_size_lines(s: &mut String, v: &[u32], n: usize)
    requires
        n <= v@.len(),
    ensures
        final(s)@ == old(s)@ + size_lines(v@, n as int),
{
    let ghost start = s@;
    let mut i: usize = 0;
    assert(start + size_lines(v@, 0) =~= start);
    while i < n
        invariant
            i <= n <= v@.len(),
            s@ == start + size_lines(v@, i as int),
        decreases n - i,
    {
        push_str(s, "create partition primary size ");
        push_decimal(s, v[i] as u64);
        push_str(s, "\n");
        i = i + 1;
        assert(s@ =~= start + size_lines(v@, i as int));
    }
}

fn push_format_lines(s: &mut String, start_part: u64, n: usize)
    requires
        start_part + n <= u64::MAX,
    ensures
        final(s)@ == old(s)@ + format_lines(start_part as nat, n as int),
{
    let ghost start = s@;
    let mut i: usize = 0;
    assert(start + format_lines(start_part as nat, 0) =~= start);
    while i < n
        invariant
            i <= n,
            start_part + n <= u64::MAX,
            s@ == start + format_lines(start_part as nat, i as int),
        decreases n - i,
    {
        push_str(s, "select partition ");
        push_decimal(s, start_part + i as u64);
        push_str(s, "\nformat fs=ntfs quick\nassign\n");
        i = i + 1;
        assert(s@ =~= start + format_lines(start_part as nat, i as int));
    }
}

/// First character of a drive-letter string whose head is one byte wide.
fn head_char(s: &str) -> (c: char)
    requires
        has_ascii_head(s@),
    ensures
        c == s@[0],
{
    s.get_char(0)
}

/// diskpart script for a GPT disk with an EFI system partition.
///
/// A removable target gets a primary partition in place of the EFI one
/// (removable media cannot carry an EFI partition), which shifts the
/// partition numbers by one.
pub fn diskpart_gpt_uefi(
    efi_size: &str,
    disk_index: &str,
    volume_letter: &str,
    drive_type: &str,
    partition_sizes: &[u32],
) -> (script: String)
    requires
        has_ascii_head(volume_letter@),
        partition_sizes@.len() <= usize::MAX - 4,
    ensures
        script@ == spec_gpt_uefi_script(
            efi_size@,
            disk_index@,
            volume_letter@[0],
            contains(drive_type@, "Removable"@),
            partition_sizes@,
        ),
{
    let is_removable = str_contains(drive_type, "Removable");
    let v = nonzero_sizes(partition_sizes);
    let k: usize = if v.len() == 0 {
        0
    } else {
        v.len() - 1
    };
    let letter = head_char(volume_letter);
    let mut s = String::new();
    push_str(&mut s, "select disk ");
    push_str(&mut s, disk_index);
    push_str(&mut s, "\nclean\nconvert gpt NOERR\n");
    if is_removable {
        push_str(&mut s, "create partition primary size ");
    } else {
        push_str(&mut s, "create partition efi size ");
    }
    push_str(&mut s, efi_size);
    push_str(&mut s, "\n");
    push_size_lines(&mut s, v.as_slice(), k);
    push_str(&mut s, "create partition primary\n");
    if is_removable {
        push_str(&mut s, "select partition 2\n");
    } else {
        push_str(&mut s, "select partition 3\n");
    }
    push_str(&mut s, "format fs=ntfs quick\nassign letter=");
    push_char(&mut s, letter);
    push_str(&mut s, "\n");
    let start_part: u64 = if is_removable {
        3
    } else {
        4
    };
    push_format_lines(&mut s, start_part, k);
    if is_removable {
        push_str(&mut s, "select partition 1\nremove NOERR\n");
    } else {
        push_str(&mut s, "select partition 2\n");
    }
    push_str(&mut s, "format fs=fat32 quick\nassign\nexit\n");
    assert(s@ =~= spec_gpt_uefi_script(
        efi_size@,
        disk_index@,
        volume_letter@[0],
        contains(drive_type@, "Removable"@),
        partition_sizes@,
    ));
    s
}

/// diskpart script for an MBR disk whose first partition is the FAT32 boot
/// partition.  The data partition gets the given letter only when
/// `keep_drive_letter` is set.
pub fn diskpart_mbr_uefi(
    efi_size: &str,
    disk_index: &str,
    volume_letter: &str,
    partition_sizes: &[u32],
    keep_drive_letter: bool,
) -> (script: String)
    requires
        keep_drive_letter ==> has_ascii_head(volume_letter@),
        partition_sizes@.len() <= usize::MAX - 4,
    ensures
        script@ == spec_mbr_uefi_script(
            efi_size@,
            disk_index@,
            volume_letter@,
            partition_sizes@,
            keep_drive_letter,
        ),
{
    let v = nonzero_sizes(partition_sizes);
    let k: usize = if v.len() == 0 {
        0
    } else {
        v.len() - 1
    };
    let mut s = String::new();
    push_str(&mut s, "select disk ");
    push_str(&mut s, disk_index);
    push_str(&mut s, "\nclean\nconvert mbr\ncreate partition primary size ");
    push_str(&mut s, efi_size);
    push_str(&mut s, "\n");
    push_size_lines(&mut s, v.as_slice(), k);
    push_str(
        &mut s,
        "create partition primary\nselect partition 2\nremove noerr\nformat fs=ntfs quick\n",
    );
    if keep_drive_letter {
        let letter = head_char(volume_letter);
        push_str(&mut s, "assign letter=");
        push_char(&mut s, letter);
        push_str(&mut s, "\n");
    } else {
        push_str(&mut s, "assign\n");
    }
    push_format_lines(&mut s, 3, k);
    push_str(&mut s, "select partition 1\nremove noerr\nformat fs=fat32 quick\nactive\nassign\nexit\n");
    assert(s@ =~= spec_mbr_uefi_script(
        efi_size@,
        disk_index@,
        volume_letter@,
        partition_sizes@,
        keep_drive_letter,
    ));
    s
}

/// diskpart script that re-partitions the volume's disk as MBR, with the
/// first partition active and keeping the volume's letter.
pub fn diskpart_repartition(volume_letter: &str, partition_sizes: &[u32]) -> (script: String)
    requires
        has_ascii_head(volume_letter@),
        partition_sizes@.len() <= usize::MAX - 4,
    ensures
        script@ == spec_repartition_script(volume_letter@[0], partition_sizes@),
{
    let v = nonzero_sizes(partition_sizes);
    let k: usize = if v.len() == 0 {
        0
    } else {
        v.len() - 1
    };
    let letter = head_char(volume_letter);
    let mut s = String::new();
    push_str(&mut s, "select volume ");
    push_char(&mut s, letter);
    push_str(&mut s, "\nclean\nconvert mbr\n");
    push_size_lines(&mut s, v.as_slice(), k);
    push_str(
        &mut s,
        "create partition primary\nselect partition 1\nformat fs=ntfs quick\nactive\nassign letter=",
    );
    push_char(&mut s, letter);
    push_str(&mut s, "\n");
    push_format_lines(&mut s, 2, k);
    push_str(&mut s, "exit\n");
    assert(s@ =~= spec_repartition_script(volume_letter@[0], partition_sizes@));
    s
}

/// diskpart script: one active NTFS partition over the whole disk, with an
/// automatically assigned letter.
pub fn repartition_auto_assign(disk_index: &str) -> (script: String)
    ensures
        script@ == "select disk "@ + disk_index@
            + "\nclean\ncreate partition primary\nselect partition 1\nformat fs=ntfs quick\nactive\nassign\nexit\n"@,
{
    let mut s = String::new();
    push_str(&mut s, "select disk ");
    push_str(&mut s, disk_index);
    push_str(
        &mut s,
        "\nclean\ncreate partition primary\nselect partition 1\nformat fs=ntfs quick\nactive\nassign\nexit\n",
    );
    s
}

/// diskpart script: one NTFS partition over the whole disk with the given letter.
pub fn assign_drive_letter(disk_index: &str, letter: &str) -> (script: String)
    ensures
        script@ == "select disk "@ + disk_index@
            + "\nclean\ncreate partition primary\nselect partition 1\nformat fs=ntfs quick\nassign letter="@
            + letter@ + "\nexit\n"@,
{
    let mut s = String::new();
    push_str(&mut s, "select disk ");
    push_str(&mut s, disk_index);
    push_str(
        &mut s,
        "\nclean\ncreate partition primary\nselect partition 1\nformat fs=ntfs quick\nassign letter=",
    );
    push_str(&mut s, letter);
    push_str(&mut s, "\nexit\n");
    s
}

/// diskpart script that stops Windows from giving the volume a letter by default.
pub fn set_no_default_drive_letter(volume_letter: &str) -> (script: String)
    requires
        has_ascii_head(volume_letter@),
    ensures
        script@ == "select volume "@ + seq![volume_letter@[0]]
            + "\nattributes volume set nodefaultdriveletter\n"@,
{
    let letter = head_char(volume_letter);
    let mut s = String::new();
    push_str(&mut s, "select volume ");
    push_char(&mut s, letter);
    push_str(&mut s, "\nattributes volume set nodefaultdriveletter\n");
    s
}

/// diskpart script that removes the volume's letter.
pub fn remove_drive_letter(volume_letter: &str) -> (script: String)
    requires
        has_ascii_head(volume_letter@),
    ensures
        script@ == "select volume "@ + seq![volume_letter@[0]] + "\nremove\nexit\n"@,
{
    let letter = head_char(volume_letter);
    let mut s = String::new();
    push_str(&mut s, "select volume ");
    push_char(&mut s, letter);
    push_str(&mut s, "\nremove\nexit\n");
    s
}

/// The `cmd.exe` command line that quick-formats the drive as NTFS.
pub fn format_ntfs(drive_letter: &str) -> (command: String)
    requires
        has_ascii_head(drive_letter@),
    ensures
        command@ == "format "@ + seq![drive_letter@[0]] + ":/FS:ntfs /q /V: /Y"@,
{
    let letter = head_char(drive_letter);
    let mut s = String::new();
    push_str(&mut s, "format ");
    push_char(&mut s, letter);
    push_str(&mut s, ":/FS:ntfs /q /V: /Y");
    s
}


proof fn lemma_ends_with_suffix(a: Seq<char>, b: Seq<char>)
    ensures
        ends_with(a + b, b),
{
    assert((a + b).subrange(a.len() as int, (a + b).len() as int) =~= b);
}

proof fn lemma_occurs_in_middle(a: Seq<char>, b: Seq<char>, c: Seq<char>)
    ensures
        occurs_at(a + b + c, b, a.len() as int),
{
    assert((a + b + c).subrange(a.len() as int, (a.len() + b.len()) as int) =~= b);
}

/// The UEFI+MBR script makes partition 1 the boot partition: it is
/// formatted FAT32 (which the firmware reads) and set active as the last
/// thing the script does, while the system partition 2 is formatted NTFS.
pub proof fn law_mbr_uefi_boot_partition_fat32(
    efi_size: Seq<char>,
    disk_index: Seq<char>,
    volume_letter: Seq<char>,
    sizes: Seq<u32>,
    keep_drive_letter: bool,
)
    ensures
        ends_with(
            spec_mbr_uefi_script(efi_size, disk_index, volume_letter, sizes, keep_drive_letter),
            "select partition 1\nremove noerr\nformat fs=fat32 quick\nactive\nassign\nexit\n"@,
        ),
        contains(
            spec_mbr_uefi_script(efi_size, disk_index, volume_letter, sizes, keep_drive_letter),
            "select partition 2\nremove noerr\nformat fs=ntfs quick\n"@,
        ),
{
    let v = nonzero(sizes);
    let k = sat_dec(v.len()) as int;
    let pre = "select disk "@ + disk_index + "\nclean\nconvert mbr\ncreate partition primary size "@
        + efi_size + "\n"@ + size_lines(v, k) + "create partition primary\n"@;
    let mid = "select partition 2\nremove noerr\nformat fs=ntfs quick\n"@;
    let post = (if keep_drive_letter {
        "assign letter="@ + seq![volume_letter[0]] + "\n"@
    } else {
        "assign\n"@
    }) + format_lines(3, k)
        + "select partition 1\nremove noerr\nformat fs=fat32 quick\nactive\nassign\nexit\n"@;
    let sc = spec_mbr_uefi_script(efi_size, disk_index, volume_letter, sizes, keep_drive_letter);
    assert("create partition primary\nselect partition 2\nremove noerr\nformat fs=ntfs quick\n"@
        =~= "create partition primary\n"@ + mid) by {
        reveal_strlit("create partition primary\nselect partition 2\nremove noerr\nformat fs=ntfs quick\n");
        reveal_strlit("create partition primary\n");
        reveal_strlit("select partition 2\nremove noerr\nformat fs=ntfs quick\n");
    }
    assert(sc =~= pre + mid + post);
    lemma_occurs_in_middle(pre, mid, post);
    let tail = "select partition 1\nremove noerr\nformat fs=fat32 quick\nactive\nassign\nexit\n"@;
    let front = "select disk "@ + disk_index + "\nclean\nconvert mbr\ncreate partition primary size "@
        + efi_size + "\n"@ + size_lines(v, k)
        + "create partition primary\nselect partition 2\nremove noerr\nformat fs=ntfs quick\n"@
        + (if keep_drive_letter {
        "assign letter="@ + seq![volume_letter[0]] + "\n"@
    } else {
        "assign\n"@
    }) + format_lines(3, k);
    assert(sc == front + tail);
    lemma_ends_with_suffix(front, tail);
}

/// The UEFI+GPT script's last format is the FAT32 format of the EFI
/// partition, which is then given a letter.
pub proof fn law_gpt_uefi_efi_partition_fat32(
    efi_size: Seq<char>,
    disk_index: Seq<char>,
    letter: char,
    removable: bool,
    sizes: Seq<u32>,
)
    ensures
        ends_with(
            spec_gpt_uefi_script(efi_size, disk_index, letter, removable, sizes),
            "format fs=fat32 quick\nassign\nexit\n"@,
        ),
{
    let v = nonzero(sizes);
    let k = sat_dec(v.len()) as int;
    let tail = "format fs=fat32 quick\nassign\nexit\n"@;
    let front = "select disk "@ + disk_index + "\nclean\nconvert gpt NOERR\n"@ + (if removable {
        "create partition primary size "@
    } else {
        "create partition efi size "@
    }) + efi_size + "\n"@ + size_lines(v, k) + "create partition primary\n"@ + (if removable {
        "select partition 2\n"@
    } else {
        "select partition 3\n"@
    }) + "format fs=ntfs quick\nassign letter="@ + seq![letter] + "\n"@ + format_lines(
        if removable {
            3
        } else {
            4
        },
        k,
    ) + (if removable {
        "select partition 1\nremove NOERR\n"@
    } else {
        "select partition 2\n"@
    });
    assert(spec_gpt_uefi_script(efi_size, disk_index, letter, removable, sizes) == front + tail);
    lemma_ends_with_suffix(front, tail);
}

} // verus!

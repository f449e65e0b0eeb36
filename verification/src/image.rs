//! Windows image handling: reading `DISM /Get-WimInfo` output, choosing the
//! image index, and the DISM / ImageX runs that apply an image.

use crate::boot::{strs, two, ToolCall};
use crate::error::AppError;
use crate::models::ImageInfo;
use crate::text::{
    chars_eq, eq_ignore_case, eq_ignore_case_chars, from_chars, is_digit, is_digit_char,
    keep_digits, keep_digits_chars, lines, lines_chars, parse_u32, parse_u32_chars, parse_u64,
    parse_u64_chars, push_char, push_chars, push_str, slice_chars, split_str, split_str_chars,
    starts_with, starts_with_chars, string_of, to_chars, trim, trim_chars, trim_str,
};
use crate::util::first_two_chars;
use vstd::prelude::*;

verus! {

// ---------------------------------------------------------------------------
// DISM /Get-WimInfo output
// ---------------------------------------------------------------------------

/// Value of the first line whose trimmed text starts with `prefix`, trimmed;
/// empty when no line does.
pub open spec fn first_field(ls: Seq<Seq<char>>, prefix: Seq<char>) -> Seq<char>
    decreases ls.len(),
{
    if ls.len() == 0 {
        Seq::empty()
    } else if starts_with(trim(ls[0]), prefix) {
        trim(trim(ls[0]).skip(prefix.len() as int))
    } else {
        first_field(ls.drop_first(), prefix)
    }
}

/// `<name> : <value>` field of a DISM output block.
pub open spec fn spec_extract_field(block: Seq<char>, name: Seq<char>) -> Seq<char> {
    first_field(lines(block), name + " : "@)
}

/// First line (of `ls[i..]`) whose trimmed text starts with `prefix`: its
/// index and trimmed text.
fn first_prefixed_line(ls: &Vec<Vec<char>>, prefix: &[char]) -> (r: Option<(usize, Vec<char>)>)
    ensures
        match r {
            Some((i, t)) => i < ls@.len() && t@ == trim(ls@[i as int]@) && starts_with(t@, prefix@)
                && forall|j: int| 0 <= j < i ==> !starts_with(trim(#[trigger] ls@[j]@), prefix@),
            None => forall|j: int| 0 <= j < ls@.len() ==> !starts_with(trim(#[trigger] ls@[j]@), prefix@),
        },
{
    let mut i: usize = 0;
    while i < ls.len()
        invariant
            i <= ls@.len(),
            forall|j: int| 0 <= j < i ==> !starts_with(trim(#[trigger] ls@[j]@), prefix@),
        decreases ls@.len() - i,
    {
        let t = trim_chars(ls[i].as_slice());
        if starts_with_chars(t.as_slice(), prefix) {
            return Some((i, t));
        }
        i = i + 1;
    }
    None
}

proof fn lemma_first_field(ls: Seq<Seq<char>>, prefix: Seq<char>, i: int)
    requires
        0 <= i <= ls.len(),
        forall|j: int| 0 <= j < i ==> !starts_with(trim(#[trigger] ls[j]), prefix),
    ensures
        first_field(ls, prefix) == first_field(ls.skip(i), prefix),
    decreases i,
{
    if i > 0 {
        assert(ls.skip(i - 1).drop_first() =~= ls.skip(i));
        lemma_first_field(ls, prefix, i - 1);
        assert(ls.skip(i - 1)[0] == ls[i - 1]);
    } else {
        assert(ls.skip(0) =~= ls);
    }
}

/// Value of the `<field_name> : ` line of a DISM output block; empty when
/// the block has no such line.
pub fn extract_field(block: &str, field_name: &str) -> (r: String)
    ensures
        r@ == spec_extract_field(block@, field_name@),
{
    let b = to_chars(block);
    let ls = lines_chars(b.as_slice());
    let mut prefix = to_chars(field_name);
    let sep = to_chars(" : ");
    let ghost p0 = prefix@;
    let mut k: usize = 0;
    while k < sep.len()
        invariant
            k <= sep@.len(),
            prefix@ == p0 + sep@.take(k as int),
        decreases sep@.len() - k,
    {
        prefix.push(sep[k]);
        k = k + 1;
        assert(prefix@ =~= p0 + sep@.take(k as int));
    }
    assert(sep@.take(k as int) =~= " : "@);
    let ghost lv = ls@.map_values(|l: Vec<char>| l@);
    assert(lv =~= lines(block@));
    match first_prefixed_line(&ls, prefix.as_slice()) {
        Some((i, t)) => {
            proof {
                lemma_first_field(lv, prefix@, i as int);
                assert(lv.skip(i as int)[0] == ls@[i as int]@);
            }
            let rest = slice_chars(t.as_slice(), prefix.len(), t.len());
            assert(rest@ =~= t@.skip(prefix@.len() as int));
            let v = trim_chars(rest.as_slice());
            from_chars(v.as_slice())
        },
        None => {
            proof {
                lemma_first_field(lv, prefix@, lv.len() as int);
                assert(lv.skip(lv.len() as int) =~= Seq::<Seq<char>>::empty());
            }
            String::new()
        },
    }
}

/// Characters that may appear in a DISM size value before it ends.
pub open spec fn size_char(c: char) -> bool {
    is_digit(c) || c == ',' || c == ' '
}

/// Length of the leading run of `size_char`s.
pub open spec fn size_run(s: Seq<char>) -> nat
    decreases s.len(),
{
    if s.len() > 0 && size_char(s[0]) {
        1 + size_run(s.drop_first())
    } else {
        0
    }
}

/// Byte count of a size value such as `9,338,967,521 bytes`: the digits of
/// its leading run of digits, commas and spaces, or 0 when they are absent
/// or do not fit in a `u64`.
pub open spec fn spec_size_value(v: Seq<char>) -> u64 {
    match parse_u64(keep_digits(v.take(size_run(v) as int))) {
        Some(n) => n,
        None => 0,
    }
}

/// First `Size : ` line of the block, as a byte count (0 when absent).
pub open spec fn size_from_lines(ls: Seq<Seq<char>>) -> u64
    decreases ls.len(),
{
    if ls.len() == 0 {
        0
    } else if starts_with(trim(ls[0]), "Size : "@) {
        spec_size_value(trim(trim(ls[0]).skip(7)))
    } else {
        size_from_lines(ls.drop_first())
    }
}

pub open spec fn spec_extract_size_field(block: Seq<char>) -> u64 {
    size_from_lines(lines(block))
}

fn size_run_len(s: &[char]) -> (k: usize)
    ensures
        k == size_run(s@),
        k <= s@.len(),
{
    let mut k: usize = 0;
    assert(s@.skip(0) =~= s@);
    while k < s.len() && (is_digit_char(s[k]) || s[k] == ',' || s[k] == ' ')
        invariant
            k <= s@.len(),
            size_run(s@) == k + size_run(s@.skip(k as int)),
        decreases s@.len() - k,
    {
        assert(s@.skip(k as int).drop_first() =~= s@.skip(k + 1));
        k = k + 1;
    }
    k
}

fn size_value(v: &[char]) -> (r: u64)
    ensures
        r == spec_size_value(v@),
{
    let k = size_run_len(v);
    let head = slice_chars(v, 0, k);
    assert(head@ =~= v@.take(k as int));
    let digits = keep_digits_chars(head.as_slice());
    match parse_u64_chars(digits.as_slice()) {
        Some(n) => n,
        None => 0,
    }
}

proof fn lemma_size_from_lines(ls: Seq<Seq<char>>, i: int)
    requires
        0 <= i <= ls.len(),
        forall|j: int| 0 <= j < i ==> !starts_with(trim(#[trigger] ls[j]), "Size : "@),
    ensures
        size_from_lines(ls) == size_from_lines(ls.skip(i)),
    decreases i,
{
    if i > 0 {
        assert(ls.skip(i - 1).drop_first() =~= ls.skip(i));
        lemma_size_from_lines(ls, i - 1);
        assert(ls.skip(i - 1)[0] == ls[i - 1]);
    } else {
        assert(ls.skip(0) =~= ls);
    }
}

/// Size (bytes) of a DISM output block's `Size : ` line; 0 when absent.
pub fn extract_size_field(block: &str) -> (r: u64)
    ensures
        r == spec_extract_size_field(block@),
{
    let b = to_chars(block);
    let ls = lines_chars(b.as_slice());
    let prefix = to_chars("Size : ");
    proof {
        reveal_strlit("Size : ");
    }
    let ghost lv = ls@.map_values(|l: Vec<char>| l@);
    assert(lv =~= lines(block@));
    match first_prefixed_line(&ls, prefix.as_slice()) {
        Some((i, t)) => {
            proof {
                lemma_size_from_lines(lv, i as int);
                assert(lv.skip(i as int)[0] == ls@[i as int]@);
            }
            let rest = slice_chars(t.as_slice(), 7, t.len());
            assert(rest@ =~= t@.skip(7));
            let v = trim_chars(rest.as_slice());
            size_value(v.as_slice())
        },
        None => {
            proof {
                lemma_size_from_lines(lv, lv.len() as int);
                assert(lv.skip(lv.len() as int) =~= Seq::<Seq<char>>::empty());
            }
            0
        },
    }
}

/// Index of a DISM block: its first line, trimmed, as a number; 1 when the
/// block is empty or the line is not a number.
pub open spec fn spec_block_index(block: Seq<char>) -> u32 {
    let first = if lines(block).len() > 0 {
        lines(block)[0]
    } else {
        "1"@
    };
    match parse_u32(trim(first)) {
        Some(v) => v,
        None => 1,
    }
}

/// Whether `info` describes the DISM output block `block`.
pub open spec fn image_of_block(info: ImageInfo, block: Seq<char>) -> bool {
    &&& info.index == spec_block_index(block)
    &&& info.name@ == spec_extract_field(block, "Name"@)
    &&& info.description@ == spec_extract_field(block, "Description"@)
    &&& info.size == spec_extract_size_field(block)
}

/// The blocks of the DISM output that describe images: the pieces after each
/// `Index : `.
pub open spec fn dism_blocks(output: Seq<char>) -> Seq<Seq<char>> {
    split_str(output, "Index : "@).drop_first()
}

fn block_index(block: &[char]) -> (r: u32)
    ensures
        r == spec_block_index(block@),
{
    let ls = lines_chars(block);
    let first: Vec<char> = if ls.len() > 0 {
        slice_chars(ls[0].as_slice(), 0, ls[0].len())
    } else {
        to_chars("1")
    };
    proof {
        if ls@.len() > 0 {
            assert(first@ =~= lines(block@)[0]);
        }
    }
    let t = trim_chars(first.as_slice());
    match parse_u32_chars(t.as_slice()) {
        Some(v) => v,
        None => 1,
    }
}

/// The images `DISM /Get-WimInfo` lists, one per `Index : ` block.
pub fn parse_dism_output(output: &str) -> (r: Vec<ImageInfo>)
    ensures
        r@.len() == dism_blocks(output@).len(),
        forall|k: int|
            0 <= k < r@.len() ==> image_of_block(#[trigger] r@[k], dism_blocks(output@)[k]),
{
    let o = to_chars(output);
    let sep = to_chars("Index : ");
    proof {
        reveal_strlit("Index : ");
    }
    let blocks = split_str_chars(o.as_slice(), sep.as_slice());
    proof {
        crate::text::lemma_split_str_nonempty(o@, sep@);
    }
    let ghost bs = split_str(o@, sep@);
    let mut images: Vec<ImageInfo> = Vec::new();
    let mut i: usize = 1;
    while i < blocks.len()
        invariant
            1 <= i <= blocks@.len(),
            blocks@.len() == bs.len(),
            bs == split_str(output@, "Index : "@),
            forall|k: int| 0 <= k < blocks@.len() ==> (#[trigger] blocks@[k])@ == bs[k],
            images@.len() == i - 1,
            forall|k: int|
                0 <= k < images@.len() ==> image_of_block(#[trigger] images@[k], bs[k + 1]),
        decreases blocks@.len() - i,
    {
        let block = from_chars(blocks[i].as_slice());
        let index = block_index(blocks[i].as_slice());
        let name = extract_field(block.as_str(), "Name");
        let description = extract_field(block.as_str(), "Description");
        let size = extract_size_field(block.as_str());
        images.push(ImageInfo { index, name, description, size });
        i = i + 1;
    }
    images
}

// ---------------------------------------------------------------------------
// Choosing the image index
// ---------------------------------------------------------------------------

/// Part of a path after its last `\` or `/`.
pub open spec fn file_name(p: Seq<char>) -> Seq<char>
    decreases p.len(),
{
    if p.len() == 0 {
        p
    } else if p.last() == '\\' || p.last() == '/' {
        Seq::empty()
    } else {
        file_name(p.drop_last()).push(p.last())
    }
}

/// Position of the last `.` in `s`, if any.
pub open spec fn last_dot(s: Seq<char>) -> Option<int>
    decreases s.len(),
{
    if s.len() == 0 {
        None
    } else if s.last() == '.' {
        Some(s.len() - 1)
    } else {
        last_dot(s.drop_last())
    }
}

/// The path without its trailing separators.
pub open spec fn strip_separators(p: Seq<char>) -> Seq<char>
    decreases p.len(),
{
    if p.len() > 0 && (p.last() == '\\' || p.last() == '/') {
        strip_separators(p.drop_last())
    } else {
        p
    }
}

/// Extension of a Windows path (`Path::extension`): the text after the last
/// `.` of the file name (trailing separators ignored), unless that dot
/// starts the name or the name is `..`.
pub open spec fn spec_extension(p: Seq<char>) -> Option<Seq<char>> {
    let name = file_name(strip_separators(p));
    if name == ".."@ {
        None
    } else {
        match last_dot(name) {
            Some(i) => if i == 0 {
                None
            } else {
                Some(name.skip(i + 1))
            },
            None => None,
        }
    }
}

fn file_name_chars(p: &[char]) -> (r: Vec<char>)
    ensures
        r@ == file_name(p@),
{
    let mut r: Vec<char> = Vec::new();
    let mut i: usize = 0;
    while i < p.len()
        invariant
            i <= p@.len(),
            r@ == file_name(p@.take(i as int)),
        decreases p@.len() - i,
    {
        assert(p@.take(i + 1).drop_last() =~= p@.take(i as int));
        if p[i] == '\\' || p[i] == '/' {
            r = Vec::new();
        } else {
            r.push(p[i]);
        }
        i = i + 1;
        assert(r@ =~= file_name(p@.take(i as int)));
    }
    assert(p@.take(i as int) =~= p@);
    r
}

fn last_dot_index(s: &[char]) -> (r: Option<usize>)
    ensures
        match r {
            Some(i) => last_dot(s@) == Some(i as int) && i < s@.len(),
            None => last_dot(s@) == None::<int>,
        },
{
    let mut k: usize = s.len();
    assert(s@.take(s@.len() as int) =~= s@);
    while k > 0
        invariant
            k <= s@.len(),
            last_dot(s@) == last_dot(s@.take(k as int)),
        decreases k,
    {
        if s[k - 1] == '.' {
            return Some(k - 1);
        }
        assert(s@.take(k as int).drop_last() =~= s@.take(k - 1));
        k = k - 1;
    }
    None
}

/// Extension of a Windows path.
pub fn file_extension(path: &str) -> (r: Option<Vec<char>>)
    ensures
        match r {
            Some(e) => spec_extension(path@) == Some(e@),
            None => spec_extension(path@) == None::<Seq<char>>,
        },
{
    let full = to_chars(path);
    let mut n: usize = full.len();
    assert(full@.take(n as int) =~= full@);
    while n > 0 && (full[n - 1] == '\\' || full[n - 1] == '/')
        invariant
            n <= full@.len(),
            strip_separators(full@) == strip_separators(full@.take(n as int)),
        decreases n,
    {
        assert(full@.take(n as int).drop_last() =~= full@.take(n - 1));
        n = n - 1;
    }
    let p = slice_chars(full.as_slice(), 0, n);
    assert(p@ =~= full@.take(n as int));
    assert(strip_separators(p@) == p@);
    let name = file_name_chars(p.as_slice());
    let dd = to_chars("..");
    if chars_eq(name.as_slice(), dd.as_slice()) {
        return None;
    }
    match last_dot_index(name.as_slice()) {
        Some(i) => if i == 0 {
            None
        } else {
            let n = name.len();
            assert(i < n);
            let e = slice_chars(name.as_slice(), i + 1, n);
            assert(e@ =~= name@.skip(i + 1));
            Some(e)
        },
        None => None,
    }
}

/// Whether the path's extension equals `ext` ignoring ASCII case.
pub open spec fn has_extension(path: Seq<char>, ext: Seq<char>) -> bool {
    match spec_extension(path) {
        Some(e) => eq_ignore_case(e, ext),
        None => ext.len() == 0,
    }
}

pub fn path_has_extension(path: &str, ext: &str) -> (r: bool)
    ensures
        r == has_extension(path@, ext@),
{
    let e = to_chars(ext);
    match file_extension(path) {
        Some(x) => eq_ignore_case_chars(x.as_slice(), e.as_slice()),
        None => e.len() == 0,
    }
}

/// What choosing the WIM index needs next.
pub enum WimIndexChoice {
    /// The index is settled.
    Chosen(String),
    /// Count the `Index` entries of `dism /get-wiminfo` for the ESD file.
    CountEsdIndexes,
    /// List the images of the WIM file and choose by their number.
    CountImages,
}

/// First step of `auto_choose_wim_index`: a set index (other than "0") is
/// kept; otherwise an `.esd` file is counted by its `Index` entries and any
/// other image by its image list.
pub fn auto_choose_wim_index(image_file: &str, current_index: &str) -> (r: WimIndexChoice)
    ensures
        current_index@ != "0"@ ==> (r matches WimIndexChoice::Chosen(s) && s@ == current_index@),
        current_index@ == "0"@ && has_extension(image_file@, "esd"@) ==> r
            is CountEsdIndexes,
        current_index@ == "0"@ && !has_extension(image_file@, "esd"@) ==> r is CountImages,
{
    if !crate::util::str_eq(current_index, "0") {
        return WimIndexChoice::Chosen(string_of(current_index));
    }
    if path_has_extension(image_file, "esd") {
        WimIndexChoice::CountEsdIndexes
    } else {
        WimIndexChoice::CountImages
    }
}

/// Index chosen from the number of images in a WIM: the second of three
/// (Windows Setup images with a PE image first), else the first.
pub fn index_for_image_count(count: usize) -> (r: String)
    ensures
        r@ == (if count == 3 {
            "2"@
        } else {
            "1"@
        }),
{
    if count == 3 {
        string_of("2")
    } else {
        string_of("1")
    }
}

/// Number of matches of a regular expression in a text, or the compile
/// error's text when the pattern is invalid.
pub uninterp spec fn regex_match_count(pattern: Seq<char>, text: Seq<char>) -> Result<nat, Seq<char>>;

/// `regex::Regex::new(pattern)` then `find_iter(text).count()`; the error's
/// display text when the pattern does not compile. The count is only named
/// here.
#[verifier::external_body]
fn count_regex_matches(pattern: &str, text: &str) -> (r: Result<usize, String>)
    ensures
        match r {
            Ok(n) => regex_match_count(pattern@, text@) == Ok::<nat, Seq<char>>(n as nat),
            Err(e) => regex_match_count(pattern@, text@) == Err::<nat, Seq<char>>(e@),
        },
{
    match regex::Regex::new(pattern) {
        Ok(re) => Ok(re.find_iter(text).count()),
        Err(e) => Err(e.to_string()),
    }
}

/// Index for an ESD image, from `dism /get-wiminfo` output: 4 when the
/// output holds more than one `Index`, else 1.
pub fn auto_choose_esd_index(dism_output: &str) -> (r: Result<String, AppError>)
    ensures
        match regex_match_count("Index"@, dism_output@) {
            Ok(n) => r matches Ok(s) && s@ == (if n > 1 {
                "4"@
            } else {
                "1"@
            }),
            Err(m) => r matches Err(AppError::SystemError(e)) && e@ == m,
        },
{
    match count_regex_matches("Index", dism_output) {
        Ok(n) => Ok(esd_index_for_count(n)),
        Err(e) => Err(AppError::SystemError(e)),
    }
}

/// The DISM run whose output is counted for an ESD file.
pub fn esd_info_call(esd_path: &str) -> (r: ToolCall)
    ensures
        r.program@ == "dism.exe"@,
        strs(r.args@) == seq!["/get-wiminfo"@, "/wimfile:"@ + esd_path@, "/english"@],
{
    let mut args: Vec<String> = Vec::new();
    args.push(string_of("/get-wiminfo"));
    args.push(concat("/wimfile:", esd_path));
    args.push(string_of("/english"));
    assert(strs(args@) =~= seq!["/get-wiminfo"@, "/wimfile:"@ + esd_path@, "/english"@]);
    ToolCall { program: string_of("dism.exe"), args }
}

/// ESD index from the number of `Index` entries.
pub fn esd_index_for_count(count: usize) -> (r: String)
    ensures
        r@ == (if count > 1 {
            "4"@
        } else {
            "1"@
        }),
{
    if count > 1 {
        string_of("4")
    } else {
        string_of("1")
    }
}

// ---------------------------------------------------------------------------
// Applying an image
// ---------------------------------------------------------------------------

fn concat(a: &str, b: &str) -> (r: String)
    ensures
        r@ == a@ + b@,
{
    let mut s = string_of(a);
    push_str(&mut s, b);
    s
}

fn concat3(a: &str, b: &str, c: &str) -> (r: String)
    ensures
        r@ == a@ + b@ + c@,
{
    let mut s = string_of(a);
    push_str(&mut s, b);
    push_str(&mut s, c);
    s
}

pub open spec fn spec_dism_apply_args(
    image_file: Seq<char>,
    target_disk: Seq<char>,
    wim_index: Seq<char>,
    compact_os: bool,
) -> Seq<Seq<char>> {
    let base = seq![
        "/Apply-Image"@,
        "/ImageFile:"@ + image_file,
        "/ApplyDir:"@ + two(target_disk),
        "/Index:"@ + wim_index,
    ];
    if compact_os {
        base.push("/compact"@)
    } else {
        base
    }
}

/// `Dism.exe /Apply-Image` onto the target drive (optionally as CompactOS).
pub fn dism_apply_image(image_file: &str, target_disk: &str, wim_index: &str, compact_os: bool) -> (r:
    ToolCall)
    ensures
        r.program@ == "Dism.exe"@,
        strs(r.args@) == spec_dism_apply_args(image_file@, target_disk@, wim_index@, compact_os),
{
    let target = first_two_chars(target_disk);
    let mut args: Vec<String> = Vec::new();
    args.push(string_of("/Apply-Image"));
    args.push(concat("/ImageFile:", image_file));
    args.push(concat("/ApplyDir:", target));
    args.push(concat("/Index:", wim_index));
    if compact_os {
        args.push(string_of("/compact"));
    }
    assert(strs(args@) =~= spec_dism_apply_args(image_file@, target_disk@, wim_index@, compact_os));
    ToolCall { program: string_of("Dism.exe"), args }
}

/// `imagex /apply <image> <index> <target>`.
pub fn imagex_apply(imagex_path: &str, image_file: &str, wim_index: &str, target_disk: &str) -> (r:
    ToolCall)
    ensures
        r.program@ == imagex_path@,
        strs(r.args@) == seq!["/apply"@, image_file@, wim_index@, target_disk@],
{
    let mut args: Vec<String> = Vec::new();
    args.push(string_of("/apply"));
    args.push(string_of(image_file));
    args.push(string_of(wim_index));
    args.push(string_of(target_disk));
    assert(strs(args@) =~= seq!["/apply"@, image_file@, wim_index@, target_disk@]);
    ToolCall { program: string_of(imagex_path), args }
}

pub open spec fn spec_wimboot_export_args(
    source_image: Seq<char>,
    dest_disk: Seq<char>,
    wim_index: Seq<char>,
) -> Seq<Seq<char>> {
    seq![
        "/Export-Image"@,
        "/WIMBoot"@,
        "/SourceImageFile:"@ + source_image,
        "/SourceIndex:"@ + wim_index,
        "/DestinationImageFile:"@ + dest_disk + "wimboot.wim"@,
    ]
}

pub open spec fn spec_wimboot_apply_args(
    dest_disk: Seq<char>,
    wim_index: Seq<char>,
    apply_dir: Seq<char>,
) -> Seq<Seq<char>> {
    seq![
        "/Apply-Image"@,
        "/ImageFile:"@ + dest_disk + "wimboot.wim"@,
        "/ApplyDir:"@ + two(apply_dir),
        "/Index:"@ + wim_index,
        "/WIMBoot"@,
    ]
}

/// WIMBoot deployment: export the image as `<dest>wimboot.wim`, then apply
/// it in WIMBoot mode onto `apply_dir`.
pub fn wimboot_apply(source_image: &str, dest_disk: &str, wim_index: &str, apply_dir: &str) -> (r:
    Vec<ToolCall>)
    ensures
        r@.len() == 2,
        r@[0].program@ == "Dism.exe"@,
        strs(r@[0].args@) == spec_wimboot_export_args(source_image@, dest_disk@, wim_index@),
        r@[1].program@ == "Dism.exe"@,
        strs(r@[1].args@) == spec_wimboot_apply_args(dest_disk@, wim_index@, apply_dir@),
{
    let target = first_two_chars(apply_dir);
    let mut export: Vec<String> = Vec::new();
    export.push(string_of("/Export-Image"));
    export.push(string_of("/WIMBoot"));
    export.push(concat("/SourceImageFile:", source_image));
    export.push(concat("/SourceIndex:", wim_index));
    export.push(concat3("/DestinationImageFile:", dest_disk, "wimboot.wim"));
    assert(strs(export@) =~= spec_wimboot_export_args(source_image@, dest_disk@, wim_index@));
    let mut apply: Vec<String> = Vec::new();
    apply.push(string_of("/Apply-Image"));
    apply.push(concat3("/ImageFile:", dest_disk, "wimboot.wim"));
    apply.push(concat("/ApplyDir:", target));
    apply.push(concat("/Index:", wim_index));
    apply.push(string_of("/WIMBoot"));
    assert(strs(apply@) =~= spec_wimboot_apply_args(dest_disk@, wim_index@, apply_dir@));
    let mut v: Vec<ToolCall> = Vec::new();
    v.push(ToolCall { program: string_of("Dism.exe"), args: export });
    v.push(ToolCall { program: string_of("Dism.exe"), args: apply });
    v
}

/// `calls` are the runs that apply the image (see `image_apply`).
pub open spec fn is_image_apply_calls(
    calls: Seq<ToolCall>,
    is_wimboot: bool,
    is_esd: bool,
    allow_esd: bool,
    imagex_path: Seq<char>,
    image_file: Seq<char>,
    wim_index: Seq<char>,
    target_disk: Seq<char>,
    wimboot_apply_dir: Seq<char>,
    compact_os: bool,
) -> bool {
    if is_wimboot {
        &&& calls.len() == 2
        &&& calls[0].program@ == "Dism.exe"@
        &&& strs(calls[0].args@) == spec_wimboot_export_args(image_file, wimboot_apply_dir, wim_index)
        &&& calls[1].program@ == "Dism.exe"@
        &&& strs(calls[1].args@) == spec_wimboot_apply_args(wimboot_apply_dir, wim_index, target_disk)
    } else if is_esd || allow_esd {
        &&& calls.len() == 1
        &&& calls[0].program@ == "Dism.exe"@
        &&& strs(calls[0].args@) == spec_dism_apply_args(image_file, target_disk, wim_index, compact_os)
    } else {
        &&& calls.len() == 1
        &&& calls[0].program@ == imagex_path
        &&& strs(calls[0].args@) == seq!["/apply"@, image_file, wim_index, target_disk]
    }
}

/// The runs that apply an image: WIMBoot when requested, DISM for ESD
/// images (or when ESD handling is allowed), ImageX otherwise.
pub fn image_apply(
    is_wimboot: bool,
    is_esd: bool,
    allow_esd: bool,
    imagex_path: &str,
    image_file: &str,
    wim_index: &str,
    target_disk: &str,
    wimboot_apply_dir: &str,
    compact_os: bool,
) -> (r: Vec<ToolCall>)
    ensures
        is_image_apply_calls(
            r@,
            is_wimboot,
            is_esd,
            allow_esd,
            imagex_path@,
            image_file@,
            wim_index@,
            target_disk@,
            wimboot_apply_dir@,
            compact_os,
        ),
{
    if is_wimboot {
        wimboot_apply(image_file, wimboot_apply_dir, wim_index, target_disk)
    } else if is_esd || allow_esd {
        let mut v: Vec<ToolCall> = Vec::new();
        v.push(dism_apply_image(image_file, target_disk, wim_index, compact_os));
        v
    } else {
        let mut v: Vec<ToolCall> = Vec::new();
        v.push(imagex_apply(imagex_path, image_file, wim_index, target_disk));
        v
    }
}

/// The file whose presence shows that an image was applied to the drive.
pub fn verify_system_files(target_disk: &str) -> (r: String)
    ensures
        r@ == target_disk@ + "\\Windows\\system32\\ntoskrnl.exe"@,
{
    concat(target_disk, "\\Windows\\system32\\ntoskrnl.exe")
}

// ---------------------------------------------------------------------------
// Extra features after the image is applied
// ---------------------------------------------------------------------------

/// Bytes a character takes in UTF-8.
pub open spec fn utf8_width(c: char) -> nat {
    if (c as u32) < 0x80 {
        1
    } else if (c as u32) < 0x800 {
        2
    } else if (c as u32) < 0x10000 {
        3
    } else {
        4
    }
}

/// Bytes the last `k` characters of `s` take in UTF-8.
pub open spec fn tail_bytes(s: Seq<char>, k: nat) -> nat
    decreases k,
{
    if k == 0 || k > s.len() {
        0
    } else {
        utf8_width(s[s.len() - k]) + tail_bytes(s, (k - 1) as nat)
    }
}

/// UTF-8 length of `s` (what `str::len` returns).
pub open spec fn byte_len(s: Seq<char>) -> nat {
    tail_bytes(s, s.len())
}

/// The `sxs` folder next to the image: the location with its last 11 bytes
/// (the length of `install.wim`) replaced by `sxs`; empty when the location
/// is not longer than 11 bytes.  Defined when cutting 11 bytes lands on a
/// character boundary, as slicing requires.
pub open spec fn spec_sxs_source(loc: Seq<char>, k: nat) -> Seq<char> {
    if byte_len(loc) > 11 {
        loc.take(loc.len() - k) + "sxs"@
    } else {
        Seq::empty()
    }
}

fn utf8_width_of(c: char) -> (w: usize)
    ensures
        w == utf8_width(c),
{
    let v = c as u32;
    if v < 0x80 {
        1
    } else if v < 0x800 {
        2
    } else if v < 0x10000 {
        3
    } else {
        4
    }
}

proof fn lemma_tail_bytes_bound(s: Seq<char>, k: nat)
    ensures
        tail_bytes(s, k) <= 4 * k,
    decreases k,
{
    if k > 0 && k <= s.len() {
        lemma_tail_bytes_bound(s, (k - 1) as nat);
    }
}

proof fn lemma_tail_bytes_mono(s: Seq<char>, a: nat, b: nat)
    requires
        a <= b <= s.len(),
    ensures
        tail_bytes(s, a) <= tail_bytes(s, b),
    decreases b,
{
    if a < b {
        lemma_tail_bytes_mono(s, a, (b - 1) as nat);
    }
}

/// Number of trailing characters that take exactly 11 bytes, if any.
fn tail_chars_for_11_bytes(s: &[char]) -> (r: Option<usize>)
    ensures
        match r {
            Some(k) => k <= s@.len() && tail_bytes(s@, k as nat) == 11,
            None => forall|k: nat| k <= s@.len() ==> tail_bytes(s@, k) != 11,
        },
{
    let mut k: usize = 0;
    let mut acc: usize = 0;
    while k < s.len() && acc < 11
        invariant
            k <= s@.len(),
            acc == tail_bytes(s@, k as nat),
            acc < 11 || k == 0 || acc >= 11,
            forall|j: nat| j < k ==> tail_bytes(s@, j) < 11,
        decreases s@.len() - k,
    {
        let w = utf8_width_of(s[s.len() - 1 - k]);
        proof {
            lemma_tail_bytes_bound(s@, k as nat);
        }
        acc = acc + w;
        k = k + 1;
    }
    if acc == 11 {
        Some(k)
    } else {
        proof {
            assert forall|j: nat| j <= s@.len() implies tail_bytes(s@, j) != 11 by {
                if j > k {
                    lemma_tail_bytes_mono(s@, k as nat, j);
                    if acc < 11 {
                        assert(k == s@.len());
                    }
                }
            }
        }
        None
    }
}

/// Whether `sxs_source_ok` holds: the .NET 3.5 source can be cut from the
/// image path (or is not needed).
pub fn sxs_source_available(install_dotnet35: bool, wim_location: &str) -> (r: bool)
    ensures
        r == sxs_source_ok(install_dotnet35, wim_location@),
{
    if !install_dotnet35 {
        return true;
    }
    let s = to_chars(wim_location);
    let mut k: usize = 0;
    let mut acc: usize = 0;
    while k < s.len() && acc <= 11
        invariant
            k <= s@.len(),
            acc == tail_bytes(s@, k as nat),
            acc <= 15,
        decreases s@.len() - k,
    {
        let w = utf8_width_of(s[s.len() - 1 - k]);
        acc = acc + w;
        k = k + 1;
    }
    if acc <= 11 {
        assert(k == s@.len());
        true
    } else {
        proof {
            lemma_tail_bytes_mono(s@, k as nat, s@.len());
        }
        tail_chars_for_11_bytes(s.as_slice()).is_some()
    }
}

/// `&wim_location[..len - 11]` followed by `sxs`, as the .NET 3.5 source.
pub fn sxs_source(wim_location: &str) -> (r: String)
    requires
        byte_len(wim_location@) > 11 ==> exists|k: nat|
            k <= wim_location@.len() && tail_bytes(wim_location@, k) == 11,
    ensures
        exists|k: nat|
            k <= wim_location@.len() && (byte_len(wim_location@) > 11 ==> tail_bytes(
                wim_location@,
                k,
            ) == 11) && r@ == spec_sxs_source(wim_location@, k),
{
    let s = to_chars(wim_location);
    let mut total: usize = 0;
    let mut i: usize = 0;
    proof {
        lemma_tail_bytes_bound(s@, s@.len());
    }
    while i < s.len() && total <= 11
        invariant
            i <= s@.len(),
            total == tail_bytes(s@, i as nat),
        decreases s@.len() - i,
    {
        total = total + utf8_width_of(s[s.len() - 1 - i]);
        i = i + 1;
    }
    if total <= 11 {
        proof {
            assert(i == s@.len());
            assert(spec_sxs_source(wim_location@, 0) == Seq::<char>::empty());
        }
        return String::new();
    }
    proof {
        lemma_tail_bytes_mono(s@, i as nat, s@.len());
    }
    match tail_chars_for_11_bytes(s.as_slice()) {
        Some(k) => {
            let head = slice_chars(s.as_slice(), 0, s.len() - k);
            let mut r = from_chars(head.as_slice());
            push_str(&mut r, "sxs");
            assert(head@ =~= wim_location@.take(wim_location@.len() - k));
            r
        },
        None => {
            assert(false);
            String::new()
        },
    }
}

/// What `image_extra` does, with the paths it must check first.
pub struct ImageExtraPlan {
    /// Driver injection (run only when the driver folder exists).
    pub add_drivers: Option<ToolCall>,
    /// Disabling UASP (run only when the tool exists).
    pub disable_uasp: Option<ToolCall>,
    /// Enabling .NET Framework 3.5.
    pub enable_dotnet35: Option<ToolCall>,
    /// Applying the SAN policy unattend file (run only when it exists).
    pub san_policy: Option<ToolCall>,
    /// Sysprep folder that receives `unattend.xml` when WinRE is disabled or
    /// OOBE skipped (only when the folder exists).
    pub unattend_dir: Option<String>,
}

/// The view of an optional string slice.
pub open spec fn opt_str(o: Option<&str>) -> Option<Seq<char>> {
    match o {
        Some(s) => Some(s@),
        None => None,
    }
}

/// `r` is the plan of `image_extra` for these settings.
pub open spec fn is_image_extra_plan(
    r: ImageExtraPlan,
    install_dotnet35: bool,
    block_local_disk: bool,
    disable_winre: bool,
    skip_oobe: bool,
    disable_uasp: bool,
    image_letter: Seq<char>,
    wim_location: Seq<char>,
    app_files_path: Seq<char>,
    driver_path: Option<Seq<char>>,
) -> bool {
    &&& (driver_path is None <==> r.add_drivers is None)
    &&& (driver_path matches Some(p) ==> (r.add_drivers matches Some(c) && c.program@
        == "dism.exe"@ && strs(c.args@) == seq![
        "/image:"@ + two(image_letter),
        "/add-driver"@,
        "/driver:"@ + p,
        "/recurse"@,
        "/ForceUnsigned"@,
    ]))
    &&& (disable_uasp <==> r.disable_uasp is Some)
    &&& (r.disable_uasp matches Some(c) ==> c.program@ == app_files_path + "\\UASP\\UASP.EXE"@
        && strs(c.args@) == seq![two(image_letter), two(image_letter)])
    &&& (install_dotnet35 <==> r.enable_dotnet35 is Some)
    &&& (r.enable_dotnet35 matches Some(c) ==> c.program@ == "dism.exe"@ && c.args@.len() == 4
        && c.args@[0]@ == "/image:"@ + two(image_letter) && c.args@[1]@
        == "/enable-feature"@ && c.args@[2]@ == "/featurename:NetFX3"@ && exists|k: nat|
        k <= wim_location.len() && (byte_len(wim_location) > 11 ==> tail_bytes(wim_location, k)
            == 11) && c.args@[3]@ == "/source:"@ + spec_sxs_source(wim_location, k))
    &&& (block_local_disk <==> r.san_policy is Some)
    &&& (r.san_policy matches Some(c) ==> c.program@ == "dism.exe"@ && strs(c.args@) == seq![
        "/image:"@ + two(image_letter),
        "/Apply-Unattend:"@,
        "\""@ + app_files_path + "\\san_policy.xml\""@,
    ])
    &&& ((disable_winre || skip_oobe) <==> r.unattend_dir is Some)
    &&& (r.unattend_dir matches Some(d) ==> d@ == image_letter + "\\Windows\\System32\\sysprep\\"@)
}

/// The condition under which `image_extra` can take the .NET 3.5 source
/// from the image path (`&path[..len - 11]` lands on a character boundary).
pub open spec fn sxs_source_ok(install_dotnet35: bool, wim_location: Seq<char>) -> bool {
    install_dotnet35 && byte_len(wim_location) > 11 ==> exists|k: nat|
        k <= wim_location.len() && tail_bytes(wim_location, k) == 11
}

/// Plans the extra configuration of an applied image.
pub fn image_extra(
    install_dotnet35: bool,
    block_local_disk: bool,
    disable_winre: bool,
    skip_oobe: bool,
    disable_uasp: bool,
    image_letter: &str,
    wim_location: &str,
    app_files_path: &str,
    driver_path: Option<&str>,
) -> (r: ImageExtraPlan)
    requires
        sxs_source_ok(install_dotnet35, wim_location@),
    ensures
        is_image_extra_plan(
            r,
            install_dotnet35,
            block_local_disk,
            disable_winre,
            skip_oobe,
            disable_uasp,
            image_letter@,
            wim_location@,
            app_files_path@,
            opt_str(driver_path),
        ),
{
    let target = first_two_chars(image_letter);
    let image_arg = concat("/image:", target);
    let add_drivers = match driver_path {
        Some(p) => {
            let mut a: Vec<String> = Vec::new();
            a.push(image_arg.clone());
            a.push(string_of("/add-driver"));
            a.push(concat("/driver:", p));
            a.push(string_of("/recurse"));
            a.push(string_of("/ForceUnsigned"));
            assert(strs(a@) =~= seq![
                "/image:"@ + two(image_letter@),
                "/add-driver"@,
                "/driver:"@ + p@,
                "/recurse"@,
                "/ForceUnsigned"@,
            ]);
            Some(ToolCall { program: string_of("dism.exe"), args: a })
        },
        None => None,
    };
    let uasp = if disable_uasp {
        let mut a: Vec<String> = Vec::new();
        a.push(string_of(target));
        a.push(string_of(target));
        assert(strs(a@) =~= seq![two(image_letter@), two(image_letter@)]);
        Some(ToolCall { program: concat(app_files_path, "\\UASP\\UASP.EXE"), args: a })
    } else {
        None
    };
    let dotnet = if install_dotnet35 {
        let sxs = sxs_source(wim_location);
        let mut a: Vec<String> = Vec::new();
        a.push(image_arg.clone());
        a.push(string_of("/enable-feature"));
        a.push(string_of("/featurename:NetFX3"));
        a.push(concat("/source:", sxs.as_str()));
        Some(ToolCall { program: string_of("dism.exe"), args: a })
    } else {
        None
    };
    let san = if block_local_disk {
        let mut a: Vec<String> = Vec::new();
        a.push(image_arg.clone());
        a.push(string_of("/Apply-Unattend:"));
        a.push(concat3("\"", app_files_path, "\\san_policy.xml\""));
        assert(strs(a@) =~= seq![
            "/image:"@ + two(image_letter@),
            "/Apply-Unattend:"@,
            "\""@ + app_files_path@ + "\\san_policy.xml\""@,
        ]);
        Some(ToolCall { program: string_of("dism.exe"), args: a })
    } else {
        None
    };
    let unattend_dir = if disable_winre || skip_oobe {
        Some(concat(image_letter, "\\Windows\\System32\\sysprep\\"))
    } else {
        None
    };
    ImageExtraPlan {
        add_drivers,
        disable_uasp: uasp,
        enable_dotnet35: dotnet,
        san_policy: san,
        unattend_dir,
    }
}

/// `template` with every `#` replaced by `settings`.
pub open spec fn replace_hash(template: Seq<char>, settings: Seq<char>) -> Seq<char>
    decreases template.len(),
{
    if template.len() == 0 {
        template
    } else if template.last() == '#' {
        replace_hash(template.drop_last(), settings) + settings
    } else {
        replace_hash(template.drop_last(), settings).push(template.last())
    }
}

/// The `unattend.xml` text: the template with `#` replaced by the WinRE
/// settings (when WinRE is disabled and the snippet could be read) followed
/// by the OOBE settings (likewise).
pub fn unattend_xml(
    template: &str,
    winre_snippet: Option<&str>,
    oobe_snippet: Option<&str>,
    disable_winre: bool,
    skip_oobe: bool,
) -> (r: String)
    ensures
        r@ == replace_hash(
            template@,
            (if disable_winre && winre_snippet is Some {
                winre_snippet->0@
            } else {
                Seq::empty()
            }) + (if skip_oobe && oobe_snippet is Some {
                oobe_snippet->0@
            } else {
                Seq::empty()
            }),
        ),
{
    let mut settings = String::new();
    if disable_winre {
        if let Some(w) = winre_snippet {
            push_str(&mut settings, w);
        }
    }
    if skip_oobe {
        if let Some(o) = oobe_snippet {
            push_str(&mut settings, o);
        }
    }
    let ghost sv = settings@;
    assert(sv =~= (if disable_winre && winre_snippet is Some {
        winre_snippet->0@
    } else {
        Seq::empty()
    }) + (if skip_oobe && oobe_snippet is Some {
        oobe_snippet->0@
    } else {
        Seq::empty()
    }));
    let t = to_chars(template);
    let sc = to_chars(settings.as_str());
    let mut out = String::new();
    let mut i: usize = 0;
    while i < t.len()
        invariant
            i <= t@.len(),
            sc@ == sv,
            out@ == replace_hash(t@.take(i as int), sv),
        decreases t@.len() - i,
    {
        assert(t@.take(i + 1).drop_last() =~= t@.take(i as int));
        if t[i] == '#' {
            push_chars(&mut out, sc.as_slice());
        } else {
            push_char(&mut out, t[i]);
        }
        i = i + 1;
    }
    assert(t@.take(i as int) =~= t@);
    out
}


// ---------------------------------------------------------------------------
// Listing the images of a file
// ---------------------------------------------------------------------------

/// Where the image list of a file comes from.
pub enum ImageInfoSource {
    /// An ISO: mount it and read the image file inside.
    Iso,
    /// A WIM/ESD file: this DISM run prints its images.
    Dism(ToolCall),
}

/// The DISM run that lists the images of a WIM/ESD file.
pub open spec fn is_wim_info_call(c: ToolCall, wim_path: Seq<char>) -> bool {
    &&& c.program@ == "Dism.exe"@
    &&& strs(c.args@) == seq!["/Get-WimInfo"@, "/WimFile:"@ + wim_path, "/english"@]
}

fn wim_info_call(wim_path: &str) -> (r: ToolCall)
    ensures
        is_wim_info_call(r, wim_path@),
{
    let mut args: Vec<String> = Vec::new();
    args.push(string_of("/Get-WimInfo"));
    args.push(concat("/WimFile:", wim_path));
    args.push(string_of("/english"));
    assert(strs(args@) =~= seq!["/Get-WimInfo"@, "/WimFile:"@ + wim_path@, "/english"@]);
    ToolCall { program: string_of("Dism.exe"), args }
}

/// First step of `get_image_info`: an `.iso` file (any case) is mounted,
/// anything else is listed by DISM directly.
pub fn get_image_info(image_file: &str) -> (r: ImageInfoSource)
    ensures
        has_extension(image_file@, "iso"@) ==> r is Iso,
        !has_extension(image_file@, "iso"@) ==> (r matches ImageInfoSource::Dism(c)
            && is_wim_info_call(c, image_file@)),
{
    if path_has_extension(image_file, "iso") {
        ImageInfoSource::Iso
    } else {
        ImageInfoSource::Dism(wim_info_call(image_file))
    }
}

/// The images DISM listed; an output without any is an error that quotes
/// the first 500 characters of the output, trimmed.
pub fn images_from_dism_output(output: &str) -> (r: Result<Vec<ImageInfo>, AppError>)
    ensures
        dism_blocks(output@).len() > 0 <==> r is Ok,
        r matches Ok(v) ==> v@.len() == dism_blocks(output@).len() && forall|k: int|
            0 <= k < v@.len() ==> image_of_block(#[trigger] v@[k], dism_blocks(output@)[k]),
        r matches Err(e) ==> (e matches AppError::ImageError(m) && m@
            == "No image indexes found. DISM output:\n"@ + trim(
            if output@.len() <= 500 {
                output@
            } else {
                output@.take(500)
            },
        )),
{
    let images = parse_dism_output(output);
    if images.len() > 0 {
        return Ok(images);
    }
    let o = to_chars(output);
    let n: usize = if o.len() <= 500 {
        o.len()
    } else {
        500
    };
    let head = slice_chars(o.as_slice(), 0, n);
    proof {
        if o@.len() <= 500 {
            assert(head@ =~= o@);
        } else {
            assert(head@ =~= o@.take(500));
        }
    }
    let t = trim_chars(head.as_slice());
    let mut m = string_of("No image indexes found. DISM output:\n");
    push_chars(&mut m, t.as_slice());
    Err(AppError::ImageError(m))
}

/// The PowerShell runs around an ISO: mounting it, asking for its drive
/// letter, dismounting it.
pub struct IsoCommands {
    pub mount: ToolCall,
    pub drive_letter: ToolCall,
    pub dismount: ToolCall,
}

fn powershell(command: String) -> (r: ToolCall)
    ensures
        r.program@ == "powershell.exe"@,
        strs(r.args@) == seq!["-NoProfile"@, "-Command"@, command@],
{
    let mut args: Vec<String> = Vec::new();
    args.push(string_of("-NoProfile"));
    args.push(string_of("-Command"));
    args.push(command);
    assert(strs(args@) =~= seq!["-NoProfile"@, "-Command"@, args@[2]@]);
    ToolCall { program: string_of("powershell.exe"), args }
}

/// The PowerShell runs that mount the ISO, print its drive letter, and
/// dismount it.
pub fn iso_commands(iso_path: &str) -> (r: IsoCommands)
    ensures
        r.mount.program@ == "powershell.exe"@,
        strs(r.mount.args@) == seq![
            "-NoProfile"@,
            "-Command"@,
            "Mount-DiskImage -ImagePath '"@ + iso_path@ + "'"@,
        ],
        r.drive_letter.program@ == "powershell.exe"@,
        strs(r.drive_letter.args@) == seq![
            "-NoProfile"@,
            "-Command"@,
            "$img = Get-DiskImage -ImagePath '"@ + iso_path@
                + "'; if ($img.Attached) { $vol = $img | Get-Volume; $vol.DriveLetter }"@,
        ],
        r.dismount.program@ == "powershell.exe"@,
        strs(r.dismount.args@) == seq![
            "-NoProfile"@,
            "-Command"@,
            "Dismount-DiskImage -ImagePath '"@ + iso_path@ + "'"@,
        ],
{
    let mount = powershell(concat3("Mount-DiskImage -ImagePath '", iso_path, "'"));
    let letter = powershell(
        concat3(
            "$img = Get-DiskImage -ImagePath '",
            iso_path,
            "'; if ($img.Attached) { $vol = $img | Get-Volume; $vol.DriveLetter }",
        ),
    );
    let dismount = powershell(concat3("Dismount-DiskImage -ImagePath '", iso_path, "'"));
    IsoCommands { mount, drive_letter: letter, dismount }
}

/// The image files to look for in a mounted ISO, in order of preference.
pub struct IsoImageFiles {
    pub wim: String,
    pub esd: String,
}

/// From the drive-letter query's output: the two candidate image files, or
/// an error when the output is blank.
pub fn iso_image_files(drive_output: &str) -> (r: Result<IsoImageFiles, AppError>)
    ensures
        trim(drive_output@).len() == 0 <==> r is Err,
        r matches Err(e) ==> (e matches AppError::ImageError(m) && m@
            == "Failed to get ISO drive letter"@),
        r matches Ok(f) ==> f.wim@ == trim(drive_output@) + ":\\sources\\install.wim"@ && f.esd@
            == trim(drive_output@) + ":\\sources\\install.esd"@,
{
    let d = trim_str(drive_output);
    if d.len() == 0 {
        return Err(AppError::ImageError(string_of("Failed to get ISO drive letter")));
    }
    let mut wim = from_chars(d.as_slice());
    push_str(&mut wim, ":\\sources\\install.wim");
    let mut esd = from_chars(d.as_slice());
    push_str(&mut esd, ":\\sources\\install.esd");
    Ok(IsoImageFiles { wim, esd })
}

/// The error for an ISO image where ISO mounting is not available.
pub fn iso_unsupported() -> (r: AppError)
    ensures
        r matches AppError::ImageError(m) && m@ == "ISO mounting is only supported on Windows"@,
{
    AppError::ImageError(string_of("ISO mounting is only supported on Windows"))
}

/// The error when a mounted ISO holds neither image file.
pub fn iso_without_image() -> (r: AppError)
    ensures
        r matches AppError::ImageError(m) && m@ == "Cannot find install.wim or install.esd in ISO"@,
{
    AppError::ImageError(string_of("Cannot find install.wim or install.esd in ISO"))
}

// ---------------------------------------------------------------------------
// Registry edits of an applied system
// ---------------------------------------------------------------------------

/// The `cmd.exe` lines of the drive-letter fix: load the applied system's
/// SYSTEM hive and unload it again, logging into `log_dir`.
pub fn fix_letter(target_letter: &str, current_os: &str, log_dir: &str) -> (r: Vec<String>)
    ensures
        strs(r@) == seq![
            "reg.exe load HKU\\TEMP "@ + current_os@
                + "\\Windows\\System32\\Config\\SYSTEM > \""@ + log_dir@ + "\\loadreg.log\""@,
            "reg.exe unload HKU\\TEMP > \""@ + log_dir@ + "\\unloadreg.log\""@,
        ],
{
    let mut load = string_of("reg.exe load HKU\\TEMP ");
    push_str(&mut load, current_os);
    push_str(&mut load, "\\Windows\\System32\\Config\\SYSTEM > \"");
    push_str(&mut load, log_dir);
    push_str(&mut load, "\\loadreg.log\"");
    let mut unload = string_of("reg.exe unload HKU\\TEMP > \"");
    push_str(&mut unload, log_dir);
    push_str(&mut unload, "\\unloadreg.log\"");
    let mut v: Vec<String> = Vec::new();
    v.push(load);
    v.push(unload);
    assert(strs(v@) =~= seq![
        "reg.exe load HKU\\TEMP "@ + current_os@ + "\\Windows\\System32\\Config\\SYSTEM > \""@
            + log_dir@ + "\\loadreg.log\""@,
        "reg.exe unload HKU\\TEMP > \""@ + log_dir@ + "\\unloadreg.log\""@,
    ]);
    v
}

/// The registry edits for a Windows 7 system.
pub struct Win7RegPlan {
    /// Loads the SYSTEM hive as `HKU\sys`.
    pub load: String,
    /// `usb.reg`, imported only when it exists.
    pub usb_reg: String,
    /// Imports `usb.reg`.
    pub import: String,
    /// Unloads the hive.
    pub unload: String,
    /// The drive-letter fix that follows (`fix_letter("C:", drive)`).
    pub fix_letter: Vec<String>,
}

/// Plans the Windows 7 registry edits of the system on `install_drive`.
pub fn win7_reg(install_drive: &str, app_files_path: &str, log_dir: &str) -> (r: Win7RegPlan)
    ensures
        r.load@ == "reg.exe load HKU\\sys "@ + install_drive@
            + "Windows\\System32\\Config\\SYSTEM > \""@ + log_dir@ + "\\Win7REGLoad.log\""@,
        r.usb_reg@ == app_files_path@ + "\\usb.reg"@,
        r.import@ == "reg.exe import \""@ + app_files_path@ + "\\usb.reg\""@,
        r.unload@ == "reg.exe unload HKU\\sys > \""@ + log_dir@ + "\\Win7REGUnLoad.log\""@,
        strs(r.fix_letter@) == seq![
            "reg.exe load HKU\\TEMP "@ + install_drive@
                + "\\Windows\\System32\\Config\\SYSTEM > \""@ + log_dir@ + "\\loadreg.log\""@,
            "reg.exe unload HKU\\TEMP > \""@ + log_dir@ + "\\unloadreg.log\""@,
        ],
{
    let mut load = string_of("reg.exe load HKU\\sys ");
    push_str(&mut load, install_drive);
    push_str(&mut load, "Windows\\System32\\Config\\SYSTEM > \"");
    push_str(&mut load, log_dir);
    push_str(&mut load, "\\Win7REGLoad.log\"");
    let usb_reg = concat(app_files_path, "\\usb.reg");
    let import = concat3("reg.exe import \"", app_files_path, "\\usb.reg\"");
    let unload = concat3("reg.exe unload HKU\\sys > \"", log_dir, "\\Win7REGUnLoad.log\"");
    let fix = fix_letter("C:", install_drive, log_dir);
    Win7RegPlan { load, usb_reg, import, unload, fix_letter: fix }
}

} // verus!

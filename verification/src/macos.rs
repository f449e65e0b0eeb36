//! Writing from macOS: reading `wimlib-imagex info`, naming disks and
//! partitions, picking the partitions of a prepared disk, and the shell
//! commands the privileged steps run.

use crate::boot::strs;
use crate::disks::{normalize_disk_id, spec_normalize_disk_id};
use crate::error::AppError;
use crate::models::{BootMode, Disk, ImageInfo, WtgConfig};
use crate::text::{
    all_digits, ascii_lower, contains, contains_chars, decimal, eq_ignore_case,
    eq_ignore_case_chars, from_chars, is_digit, is_digit_char, keep_digits, keep_digits_chars,
    lines, lines_chars, lower_chars, parse_u32, parse_u32_chars, parse_u64, parse_u64_chars,
    push_chars, push_decimal, push_str, slice_chars, starts_with, starts_with_chars, string_of,
    to_chars, trim, trim_chars, trim_str,
};
use vstd::prelude::*;

verus! {

// ---------------------------------------------------------------------------
// Numbers and device names in tool output
// ---------------------------------------------------------------------------

/// The digits of a text read as a number; none without digits or on overflow.
pub open spec fn spec_parse_u64_digits(value: Seq<char>) -> Option<u64> {
    if keep_digits(value).len() == 0 {
        None
    } else {
        parse_u64(keep_digits(value))
    }
}

pub fn parse_u64_digits(value: &str) -> (r: Option<u64>)
    ensures
        r == spec_parse_u64_digits(value@),
{
    let v = to_chars(value);
    let d = keep_digits_chars(v.as_slice());
    if d.len() == 0 {
        None
    } else {
        parse_u64_chars(d.as_slice())
    }
}

/// The leading digits of a text.
pub open spec fn leading_digits(s: Seq<char>) -> Seq<char>
    decreases s.len(),
{
    if s.len() > 0 && is_digit(s[0]) {
        seq![s[0]] + leading_digits(s.drop_first())
    } else {
        Seq::empty()
    }
}

/// The whole-disk device `hdiutil detach` takes for a device entry:
/// `/dev/disk<n>` from a trimmed entry that starts with `/dev/disk<digits>`.
pub open spec fn spec_detach_target(dev_entry: Seq<char>) -> Option<Seq<char>> {
    let e = trim(dev_entry);
    if starts_with(e, "/dev/disk"@) && leading_digits(e.skip(9)).len() > 0 {
        Some("/dev/disk"@ + leading_digits(e.skip(9)))
    } else {
        None
    }
}

fn leading_digits_chars(s: &[char]) -> (r: Vec<char>)
    ensures
        r@ == leading_digits(s@),
{
    let mut i: usize = 0;
    assert(s@.skip(0) =~= s@);
    while i < s.len() && is_digit_char(s[i])
        invariant
            i <= s@.len(),
            forall|k: int| 0 <= k < i ==> is_digit(#[trigger] s@[k]),
            leading_digits(s@) == s@.take(i as int) + leading_digits(s@.skip(i as int)),
        decreases s@.len() - i,
    {
        assert(s@.skip(i as int)[0] == s@[i as int]);
        assert(s@.skip(i as int).drop_first() =~= s@.skip(i + 1));
        assert(s@.take(i + 1) =~= s@.take(i as int) + seq![s@[i as int]]);
        i = i + 1;
    }
    if i < s.len() {
        assert(s@.skip(i as int)[0] == s@[i as int]);
    }
    assert(leading_digits(s@.skip(i as int)) =~= Seq::<char>::empty());
    slice_chars(s, 0, i)
}

pub fn normalize_hdiutil_detach_target(dev_entry: &str) -> (r: Option<String>)
    ensures
        match r {
            Some(x) => spec_detach_target(dev_entry@) == Some(x@),
            None => spec_detach_target(dev_entry@) is None,
        },
{
    let e = trim_str(dev_entry);
    let p = to_chars("/dev/disk");
    proof {
        reveal_strlit("/dev/disk");
    }
    if !starts_with_chars(e.as_slice(), p.as_slice()) {
        return None;
    }
    let rest = slice_chars(e.as_slice(), 9, e.len());
    assert(rest@ =~= e@.skip(9));
    let d = leading_digits_chars(rest.as_slice());
    if d.len() == 0 {
        return None;
    }
    let mut r = string_of("/dev/disk");
    push_chars(&mut r, d.as_slice());
    Some(r)
}

/// A partition identifier `disk<digits>s<digits>` (with or without
/// `/dev/`, blanks around ignored): the last `s` splits disk and partition
/// numbers.
pub open spec fn spec_parse_partition_id(input: Seq<char>) -> Option<Seq<char>> {
    let t = trim(input);
    let w = if starts_with(t, "/dev/"@) {
        t.skip(5)
    } else {
        t
    };
    match last_s(w) {
        Some(k) => if starts_with(w, "disk"@) && k > 4 && k + 1 < w.len() && all_digits(
            w.subrange(4, k),
        ) && all_digits(w.skip(k + 1)) {
            Some(w)
        } else {
            None
        },
        None => None,
    }
}

/// The position of the last `s` in the text.
pub open spec fn last_s(w: Seq<char>) -> Option<int>
    decreases w.len(),
{
    if w.len() == 0 {
        None
    } else if w.last() == 's' {
        Some(w.len() - 1)
    } else {
        last_s(w.drop_last())
    }
}

fn last_s_index(w: &[char]) -> (r: Option<usize>)
    ensures
        match r {
            Some(k) => last_s(w@) == Some(k as int) && k < w@.len(),
            None => last_s(w@) is None,
        },
{
    let mut k: usize = w.len();
    assert(w@.take(k as int) =~= w@);
    while k > 0
        invariant
            k <= w@.len(),
            last_s(w@) == last_s(w@.take(k as int)),
        decreases k,
    {
        if w[k - 1] == 's' {
            return Some(k - 1);
        }
        assert(w@.take(k as int).drop_last() =~= w@.take(k - 1));
        k = k - 1;
    }
    None
}

fn all_digits_chars(s: &[char]) -> (r: bool)
    ensures
        r == all_digits(s@),
{
    let mut i: usize = 0;
    while i < s.len()
        invariant
            i <= s@.len(),
            forall|k: int| 0 <= k < i ==> is_digit(#[trigger] s@[k]),
        decreases s@.len() - i,
    {
        if !is_digit_char(s[i]) {
            return false;
        }
        i = i + 1;
    }
    true
}

fn without_dev(input: &str) -> (r: Vec<char>)
    ensures
        r@ == (if starts_with(trim(input@), "/dev/"@) {
            trim(input@).skip(5)
        } else {
            trim(input@)
        }),
{
    let t = trim_str(input);
    let dev = to_chars("/dev/");
    proof {
        reveal_strlit("/dev/");
    }
    if starts_with_chars(t.as_slice(), dev.as_slice()) {
        let r = slice_chars(t.as_slice(), 5, t.len());
        assert(r@ =~= t@.skip(5));
        r
    } else {
        t
    }
}

pub fn parse_partition_id(input: &str) -> (r: Option<String>)
    ensures
        match r {
            Some(x) => spec_parse_partition_id(input@) == Some(x@),
            None => spec_parse_partition_id(input@) is None,
        },
{
    let w = without_dev(input);
    let disk = to_chars("disk");
    match last_s_index(w.as_slice()) {
        Some(k) => {
            if starts_with_chars(w.as_slice(), disk.as_slice()) && k > 4 && w.len() - k > 1 {
                let a = slice_chars(w.as_slice(), 4, k);
                let b = slice_chars(w.as_slice(), k + 1, w.len());
                assert(b@ =~= w@.skip(k + 1));
                if all_digits_chars(a.as_slice()) && all_digits_chars(b.as_slice()) {
                    return Some(from_chars(w.as_slice()));
                }
            }
            None
        },
        None => None,
    }
}

/// The whole disk a partition identifier belongs to: `disk<n>` of
/// `disk<n>s<m>`.
pub open spec fn spec_parent_disk(partition_id: Seq<char>) -> Option<Seq<char>> {
    match spec_parse_partition_id(partition_id) {
        Some(w) => Some(w.take(last_s(w).unwrap())),
        None => None,
    }
}

pub fn parent_disk_id_from_partition(partition_id: &str) -> (r: Option<String>)
    ensures
        match r {
            Some(x) => spec_parent_disk(partition_id@) == Some(x@),
            None => spec_parent_disk(partition_id@) is None,
        },
{
    match parse_partition_id(partition_id) {
        Some(w) => {
            let c = to_chars(w.as_str());
            match last_s_index(c.as_slice()) {
                Some(k) => {
                    let d = slice_chars(c.as_slice(), 0, k);
                    Some(from_chars(d.as_slice()))
                },
                None => None,
            }
        },
        None => None,
    }
}

/// The partition number of an identifier: the number after its last `s`,
/// else the largest `u32` (so that such entries sort last).
pub open spec fn spec_partition_index(partition_id: Seq<char>) -> u32 {
    let t = trim(partition_id);
    let w = if starts_with(t, "/dev/"@) {
        t.skip(5)
    } else {
        t
    };
    match last_s(w) {
        Some(k) => match parse_u32(w.skip(k + 1)) {
            Some(v) => v,
            None => u32::MAX,
        },
        None => u32::MAX,
    }
}

pub fn partition_index_from_id(partition_id: &str) -> (r: u32)
    ensures
        r == spec_partition_index(partition_id@),
{
    let w = without_dev(partition_id);
    match last_s_index(w.as_slice()) {
        Some(k) => {
            let n = w.len();
            assert(k < n);
            let tail = slice_chars(w.as_slice(), k + 1, n);
            assert(tail@ =~= w@.skip(k + 1));
            match parse_u32_chars(tail.as_slice()) {
                Some(v) => v,
                None => u32::MAX,
            }
        },
        None => u32::MAX,
    }
}

/// The whole disk a target names: its device, else its id, else `disk<index>`
/// for an all-digit index.
pub open spec fn spec_resolve_disk_id(d: Disk) -> Option<Seq<char>> {
    match spec_normalize_disk_id(d.device@) {
        Some(v) => Some(v),
        None => match spec_normalize_disk_id(d.id@) {
            Some(v) => Some(v),
            None => if trim(d.index@).len() > 0 && all_digits(trim(d.index@)) {
                Some("disk"@ + trim(d.index@))
            } else {
                None
            },
        },
    }
}

/// The whole-disk identifier of the target, or an error naming what it had.
pub fn resolve_disk_id_from_target_disk(target: &Disk) -> (r: Result<String, AppError>)
    ensures
        match spec_resolve_disk_id(*target) {
            Some(v) => r matches Ok(x) && x@ == v,
            None => r matches Err(AppError::InvalidParameter(m)) && m@
                == "Invalid target disk identifier: id='"@ + target.id@ + "', device='"@
                + target.device@ + "', index='"@ + target.index@ + "'"@,
        },
{
    if let Some(v) = normalize_disk_id(target.device.as_str()) {
        return Ok(v);
    }
    if let Some(v) = normalize_disk_id(target.id.as_str()) {
        return Ok(v);
    }
    let idx = trim_str(target.index.as_str());
    if idx.len() > 0 && all_digits_chars(idx.as_slice()) {
        let mut r = string_of("disk");
        push_chars(&mut r, idx.as_slice());
        return Ok(r);
    }
    let mut m = string_of("Invalid target disk identifier: id='");
    push_str(&mut m, target.id.as_str());
    push_str(&mut m, "', device='");
    push_str(&mut m, target.device.as_str());
    push_str(&mut m, "', index='");
    push_str(&mut m, target.index.as_str());
    push_str(&mut m, "'");
    Err(AppError::InvalidParameter(m))
}

// ---------------------------------------------------------------------------
// Shell quoting
// ---------------------------------------------------------------------------

/// The text to put between single quotes in `sh`: each `'` becomes
/// `'"'"'` (close, a double-quoted quote, reopen).
pub open spec fn shell_escaped(raw: Seq<char>) -> Seq<char>
    decreases raw.len(),
{
    if raw.len() == 0 {
        raw
    } else {
        (if raw[0] == '\'' {
            seq!['\'', '"', '\'', '"', '\'']
        } else {
            seq![raw[0]]
        }) + shell_escaped(raw.drop_first())
    }
}

/// What `sh` reads between single quotes: `'"'"'` stands for one `'`.
pub open spec fn shell_unescaped(s: Seq<char>) -> Seq<char>
    decreases s.len(),
{
    if s.len() == 0 {
        s
    } else if s.len() >= 5 && s[0] == '\'' && s[1] == '"' && s[2] == '\'' && s[3] == '"' && s[4]
        == '\'' {
        seq!['\''] + shell_unescaped(s.skip(5))
    } else {
        seq![s[0]] + shell_unescaped(s.drop_first())
    }
}

/// Quoting loses nothing: the shell reads back exactly the original text.
pub proof fn lemma_shell_escape_roundtrip(raw: Seq<char>)
    ensures
        shell_unescaped(shell_escaped(raw)) == raw,
    decreases raw.len(),
{
    if raw.len() > 0 {
        let rest = shell_escaped(raw.drop_first());
        lemma_shell_escape_roundtrip(raw.drop_first());
        let e = shell_escaped(raw);
        if raw[0] == '\'' {
            let q = seq!['\'', '"', '\'', '"', '\''];
            assert(e == q + rest);
            assert(e.skip(5) =~= rest);
            assert(shell_unescaped(e) == seq!['\''] + shell_unescaped(rest));
        } else {
            assert(e == seq![raw[0]] + rest);
            assert(e.drop_first() =~= rest);
            assert(e[0] == raw[0]);
            assert(shell_unescaped(e) == seq![raw[0]] + shell_unescaped(rest));
        }
        assert(seq![raw[0]] + raw.drop_first() =~= raw);
    }
}

/// Escaped text holds no lone `'`: every quote sits in a `'"'"'` group.
pub proof fn lemma_shell_escape_no_quote_left(raw: Seq<char>)
    ensures
        shell_escaped(raw).len() == raw.len() + 4 * count_quotes(raw),
    decreases raw.len(),
{
    if raw.len() > 0 {
        lemma_shell_escape_no_quote_left(raw.drop_first());
    }
}

/// How many `'` the text holds.
pub open spec fn count_quotes(s: Seq<char>) -> nat
    decreases s.len(),
{
    if s.len() == 0 {
        0
    } else {
        (if s[0] == '\'' {
            1nat
        } else {
            0nat
        }) + count_quotes(s.drop_first())
    }
}

/// The replacement of one character.
pub open spec fn escape_piece(c: char) -> Seq<char> {
    if c == '\'' {
        seq!['\'', '"', '\'', '"', '\'']
    } else {
        seq![c]
    }
}

proof fn lemma_shell_escaped_push(a: Seq<char>, c: char)
    ensures
        shell_escaped(a.push(c)) == shell_escaped(a) + escape_piece(c),
    decreases a.len(),
{
    if a.len() == 0 {
        let t = a.push(c);
        assert(t.len() == 1);
        assert(t[0] == c);
        assert(t.drop_first() =~= Seq::<char>::empty());
        assert(shell_escaped(t.drop_first()) == Seq::<char>::empty());
        assert(shell_escaped(t) == escape_piece(c) + shell_escaped(t.drop_first()));
        assert(shell_escaped(a) == Seq::<char>::empty());
        assert(escape_piece(c) + Seq::<char>::empty() =~= escape_piece(c));
        assert(Seq::<char>::empty() + escape_piece(c) =~= escape_piece(c));
    } else {
        lemma_shell_escaped_push(a.drop_first(), c);
        assert(a.push(c).drop_first() =~= a.drop_first().push(c));
        assert(a.push(c)[0] == a[0]);
        let h = if a[0] == '\'' {
            seq!['\'', '"', '\'', '"', '\'']
        } else {
            seq![a[0]]
        };
        assert(shell_escaped(a.push(c)) == h + shell_escaped(a.drop_first().push(c)));
        assert(shell_escaped(a) == h + shell_escaped(a.drop_first()));
        assert(h + (shell_escaped(a.drop_first()) + escape_piece(c)) =~= (h + shell_escaped(
            a.drop_first(),
        )) + escape_piece(c));
    }
}

pub fn shell_escape_single_quotes(raw: &str) -> (r: String)
    ensures
        r@ == shell_escaped(raw@),
{
    let c = to_chars(raw);
    let mut out = String::new();
    let mut i: usize = 0;
    assert(c@.take(0) =~= Seq::<char>::empty());
    while i < c.len()
        invariant
            i <= c@.len(),
            out@ == shell_escaped(c@.take(i as int)),
        decreases c@.len() - i,
    {
        let ch = c[i];
        proof {
            lemma_shell_escaped_push(c@.take(i as int), ch);
            assert(c@.take(i + 1) =~= c@.take(i as int).push(ch));
        }
        if ch == '\'' {
            push_str(&mut out, "'\"'\"'");
            proof {
                reveal_strlit("'\"'\"'");
            }
        } else {
            crate::text::push_char(&mut out, ch);
        }
        assert(out@ =~= shell_escaped(c@.take(i + 1)));
        i = i + 1;
    }
    assert(c@.take(i as int) =~= raw@);
    out
}


// ---------------------------------------------------------------------------
// `wimlib-imagex info`
// ---------------------------------------------------------------------------

/// One image of the listing, as the parser builds it.
pub struct WimEntry {
    pub index: u32,
    pub name: Seq<char>,
    pub description: Seq<char>,
    pub size: u64,
}

/// The listing as read so far: the finished images and the open one.
pub struct WimScan {
    pub done: Seq<WimEntry>,
    pub current: Option<WimEntry>,
}

/// One line of the listing: `Index:` opens an image (named `Image <n>`
/// until a `Name:` line says otherwise); `Name:`, `Description:` and
/// `Total Bytes:` fill the open image when their value is non-empty.
pub open spec fn wim_step(st: WimScan, line: Seq<char>) -> WimScan {
    let t = trim(line);
    if starts_with(t, "Index:"@) {
        let idx = match parse_u32(trim(t.skip(6))) {
            Some(v) => v,
            None => 0u32,
        };
        WimScan {
            done: match st.current {
                Some(c) => st.done.push(c),
                None => st.done,
            },
            current: Some(
                WimEntry {
                    index: idx,
                    name: "Image "@ + decimal(idx as nat),
                    description: Seq::empty(),
                    size: 0,
                },
            ),
        }
    } else {
        match st.current {
            None => st,
            Some(c) => if starts_with(t, "Name:"@) {
                let n = trim(t.skip(5));
                if n.len() > 0 {
                    WimScan { done: st.done, current: Some(WimEntry { name: n, ..c }) }
                } else {
                    st
                }
            } else if starts_with(t, "Description:"@) {
                let d = trim(t.skip(12));
                if d.len() > 0 {
                    WimScan { done: st.done, current: Some(WimEntry { description: d, ..c }) }
                } else {
                    st
                }
            } else if starts_with(t, "Total Bytes:"@) {
                match spec_parse_u64_digits(trim(t.skip(12))) {
                    Some(b) => WimScan { done: st.done, current: Some(WimEntry { size: b, ..c }) },
                    None => st,
                }
            } else {
                st
            },
        }
    }
}

pub open spec fn wim_scan(ls: Seq<Seq<char>>) -> WimScan
    decreases ls.len(),
{
    if ls.len() == 0 {
        WimScan { done: Seq::empty(), current: None }
    } else {
        wim_step(wim_scan(ls.drop_last()), ls.last())
    }
}

/// The images with a non-zero index, in order.
pub open spec fn nonzero_entries(es: Seq<WimEntry>) -> Seq<WimEntry>
    decreases es.len(),
{
    if es.len() == 0 {
        es
    } else if es.last().index > 0 {
        nonzero_entries(es.drop_last()).push(es.last())
    } else {
        nonzero_entries(es.drop_last())
    }
}

/// The images `wimlib-imagex info` lists.
pub open spec fn spec_wimlib_images(raw: Seq<char>) -> Seq<WimEntry> {
    let st = wim_scan(lines(raw));
    nonzero_entries(
        match st.current {
            Some(c) => st.done.push(c),
            None => st.done,
        },
    )
}

pub open spec fn entry_of(i: ImageInfo) -> WimEntry {
    WimEntry { index: i.index, name: i.name@, description: i.description@, size: i.size }
}

pub open spec fn entries_of(v: Seq<ImageInfo>) -> Seq<WimEntry> {
    v.map_values(|i: ImageInfo| entry_of(i))
}

pub open spec fn opt_entry(o: Option<ImageInfo>) -> Option<WimEntry> {
    match o {
        Some(i) => Some(entry_of(i)),
        None => None,
    }
}

fn copy_info(i: &ImageInfo) -> (r: ImageInfo)
    ensures
        entry_of(r) == entry_of(*i),
{
    ImageInfo { index: i.index, name: i.name.clone(), description: i.description.clone(), size: i.size }
}

fn rest_after(t: &[char], n: usize) -> (r: Vec<char>)
    requires
        n <= t@.len(),
    ensures
        r@ == trim(t@.skip(n as int)),
{
    let rest = slice_chars(t, n, t.len());
    assert(rest@ =~= t@.skip(n as int));
    trim_chars(rest.as_slice())
}

fn wim_line(done: &mut Vec<ImageInfo>, current: &mut Option<ImageInfo>, line: &[char])
    ensures
        entries_of(final(done)@) == wim_step(WimScan { done: entries_of(old(done)@), current: opt_entry(*old(current)) }, line@).done,
        opt_entry(*final(current)) == wim_step(WimScan { done: entries_of(old(done)@), current: opt_entry(*old(current)) }, line@).current,
{
    let t = trim_chars(line);
    let idx_p = to_chars("Index:");
    let name_p = to_chars("Name:");
    let desc_p = to_chars("Description:");
    let size_p = to_chars("Total Bytes:");
    proof {
        reveal_strlit("Index:");
        reveal_strlit("Name:");
        reveal_strlit("Description:");
        reveal_strlit("Total Bytes:");
    }
    if starts_with_chars(t.as_slice(), idx_p.as_slice()) {
        let v = rest_after(t.as_slice(), 6);
        let index: u32 = match parse_u32_chars(v.as_slice()) {
            Some(x) => x,
            None => 0,
        };
        let ghost before = entries_of(done@);
        match current {
            Some(c) => {
                let cc = copy_info(c);
                done.push(cc);
                assert(entries_of(done@) =~= before.push(entry_of(*c)));
            },
            None => {},
        }
        let mut name = string_of("Image ");
        push_decimal(&mut name, index as u64);
        *current = Some(ImageInfo { index, name, description: String::new(), size: 0 });
        return;
    }
    match current {
        None => {},
        Some(c) => {
            if starts_with_chars(t.as_slice(), name_p.as_slice()) {
                let n = rest_after(t.as_slice(), 5);
                if n.len() > 0 {
                    c.name = from_chars(n.as_slice());
                }
            } else if starts_with_chars(t.as_slice(), desc_p.as_slice()) {
                let d = rest_after(t.as_slice(), 12);
                if d.len() > 0 {
                    c.description = from_chars(d.as_slice());
                }
            } else if starts_with_chars(t.as_slice(), size_p.as_slice()) {
                let v = rest_after(t.as_slice(), 12);
                let vs = from_chars(v.as_slice());
                match parse_u64_digits(vs.as_str()) {
                    Some(b) => {
                        c.size = b;
                    },
                    None => {},
                }
            }
        },
    }
}

/// The images `wimlib-imagex info` prints: index, name, description and
/// size of each; entries with index 0 are dropped.
pub fn parse_wimlib_image_info(raw: &str) -> (r: Vec<ImageInfo>)
    ensures
        entries_of(r@) == spec_wimlib_images(raw@),
{
    let c = to_chars(raw);
    let ls = lines_chars(c.as_slice());
    let ghost lv = ls@.map_values(|l: Vec<char>| l@);
    assert(lv =~= lines(raw@));
    let mut done: Vec<ImageInfo> = Vec::new();
    let mut current: Option<ImageInfo> = None;
    let mut i: usize = 0;
    while i < ls.len()
        invariant
            i <= ls@.len(),
            lv == ls@.map_values(|l: Vec<char>| l@),
            entries_of(done@) == wim_scan(lv.take(i as int)).done,
            opt_entry(current) == wim_scan(lv.take(i as int)).current,
        decreases ls@.len() - i,
    {
        proof {
            assert(lv.take(i + 1).drop_last() =~= lv.take(i as int));
            assert(lv.take(i + 1).last() == ls@[i as int]@);
        }
        wim_line(&mut done, &mut current, ls[i].as_slice());
        i = i + 1;
    }
    assert(lv.take(i as int) =~= lv);
    let ghost before = entries_of(done@);
    match current {
        Some(c) => {
            done.push(c);
            assert(entries_of(done@) =~= before.push(entry_of(c)));
        },
        None => {},
    }
    let ghost all = entries_of(done@);
    let mut out: Vec<ImageInfo> = Vec::new();
    let mut k: usize = 0;
    while k < done.len()
        invariant
            k <= done@.len(),
            all == entries_of(done@),
            entries_of(out@) == nonzero_entries(all.take(k as int)),
        decreases done@.len() - k,
    {
        assert(all.take(k + 1).drop_last() =~= all.take(k as int));
        assert(all.take(k + 1).last() == entry_of(done@[k as int]));
        if done[k].index > 0 {
            let ghost b = entries_of(out@);
            out.push(copy_info(&done[k]));
            assert(entries_of(out@) =~= b.push(entry_of(done@[k as int])));
        }
        k = k + 1;
    }
    assert(all.take(k as int) =~= all);
    out
}

/// The image index to apply: the requested one when set (not blank and not
/// `0`) and listed; the first listed otherwise; errors when nothing is
/// listed, the request is not a number, or it is not listed.
#[verifier::loop_isolation(false)]
pub fn resolve_wim_index(infos: &Vec<ImageInfo>, requested: &str, image_display: &str) -> (r: Result<String, AppError>)
    ensures
        infos@.len() == 0 ==> (r matches Err(AppError::ImageError(m)) && m@ == "No image index found in "@ + image_display@),
        infos@.len() > 0 && (trim(requested@).len() == 0 || trim(requested@) == "0"@) ==> (r matches Ok(x) && x@ == decimal(infos@[0].index as nat)),
        infos@.len() > 0 && trim(requested@).len() > 0 && trim(requested@) != "0"@ ==> match parse_u32(trim(requested@)) {
            None => r matches Err(AppError::InvalidParameter(m)) && m@ == "Invalid WIM index: "@ + requested@,
            Some(n) => if exists|i: int| 0 <= i < infos@.len() && (#[trigger] infos@[i]).index == n {
                r matches Ok(x) && x@ == decimal(n as nat)
            } else {
                r matches Err(AppError::InvalidParameter(m)) && m@ == "WIM index "@ + decimal(n as nat) + " not found in image"@
            },
        },
{
    if infos.len() == 0 {
        let mut m = string_of("No image index found in ");
        push_str(&mut m, image_display);
        return Err(AppError::ImageError(m));
    }
    let req = trim_str(requested);
    let zero = to_chars("0");
    if req.len() > 0 && !crate::text::chars_eq(req.as_slice(), zero.as_slice()) {
        match parse_u32_chars(req.as_slice()) {
            None => {
                let mut m = string_of("Invalid WIM index: ");
                push_str(&mut m, requested);
                return Err(AppError::InvalidParameter(m));
            },
            Some(n) => {
                let mut i: usize = 0;
                while i < infos.len()
                    invariant
                        i <= infos@.len(),
                        forall|k: int| 0 <= k < i ==> infos@[k].index != n,
                    decreases infos@.len() - i,
                {
                    if infos[i].index == n {
                        let mut s = String::new();
                        push_decimal(&mut s, n as u64);
                        return Ok(s);
                    }
                    i = i + 1;
                }
                let mut m = string_of("WIM index ");
                push_decimal(&mut m, n as u64);
                push_str(&mut m, " not found in image");
                return Err(AppError::InvalidParameter(m));
            },
        }
    }
    let mut s = String::new();
    push_decimal(&mut s, infos[0].index as u64);
    Ok(s)
}


// ---------------------------------------------------------------------------
// Partitions of the prepared disk
// ---------------------------------------------------------------------------

/// The EFI and system partitions of a prepared target disk.
#[derive(Debug, Clone)]
pub struct PreparedTargetDisk {
    pub efi_partition_id: Option<String>,
    pub system_partition_id: String,
}

/// Where `diskutil partitionDisk` puts the partitions: EFI first and the
/// system second for UEFI layouts, the system alone otherwise.
pub fn expected_partition_ids_for_boot_mode(mode: &BootMode, disk_id: &str) -> (r: PreparedTargetDisk)
    ensures
        match *mode {
            BootMode::NonUefi => r.efi_partition_id is None && r.system_partition_id@ == disk_id@ + "s1"@,
            _ => (r.efi_partition_id matches Some(e) && e@ == disk_id@ + "s1"@) && r.system_partition_id@
                == disk_id@ + "s2"@,
        },
{
    match mode {
        BootMode::NonUefi => {
            let mut sys = string_of(disk_id);
            push_str(&mut sys, "s1");
            PreparedTargetDisk { efi_partition_id: None, system_partition_id: sys }
        },
        _ => {
            let mut efi = string_of(disk_id);
            push_str(&mut efi, "s1");
            let mut sys = string_of(disk_id);
            push_str(&mut sys, "s2");
            PreparedTargetDisk { efi_partition_id: Some(efi), system_partition_id: sys }
        },
    }
}

proof fn lemma_trim_plain(s: Seq<char>)
    requires
        forall|i: int| 0 <= i < s.len() ==> !crate::text::is_ws(#[trigger] s[i]),
    ensures
        trim(s) == s,
{
    assert(crate::text::trim_start(s) == s);
    assert(crate::text::trim_end(s) == s);
}

/// The partitions `expected_partition_ids_for_boot_mode` names belong to the
/// disk: for a whole-disk identifier `disk<n>`, the parent of `disk<n>s<k>`
/// (k a single digit) is `disk<n>` again.
pub proof fn lemma_partition_parent(disk_id: Seq<char>, k: char)
    requires
        spec_normalize_disk_id(disk_id) == Some(disk_id),
        is_digit(k),
    ensures
        spec_parent_disk(disk_id + seq!['s', k]) == Some(disk_id),
        spec_partition_index(disk_id + seq!['s', k]) == (k as u32) - ('0' as u32),
{
    reveal_strlit("disk");
    reveal_strlit("/dev/");
    let p = disk_id + seq!['s', k];
    // The disk identifier is `disk` followed by digits: no blanks anywhere.
    let n = disk_id.len();
    assert(starts_with(disk_id, "disk"@) && n > 4 && all_digits(disk_id.skip(4)));
    assert forall|i: int| 0 <= i < n implies !crate::text::is_ws(#[trigger] disk_id[i]) by {
        if i < 4 {
            assert(disk_id.subrange(0, 4)[i] == disk_id[i]);
        } else {
            assert(disk_id.skip(4)[i - 4] == disk_id[i]);
        }
    }
    assert forall|i: int| 0 <= i < p.len() implies !crate::text::is_ws(#[trigger] p[i]) by {
        if i < n {
            assert(p[i] == disk_id[i]);
        }
    }
    lemma_trim_plain(p);
    assert(!starts_with(p, "/dev/"@)) by {
        assert(disk_id.subrange(0, 4)[0] == disk_id[0]);
        assert("disk"@[0] == 'd');
        assert(p[0] == disk_id[0]);
        assert("/dev/"@[0] == '/');
        assert(p.subrange(0, 5)[0] == p[0]);
    }
    assert(last_s(p) == Some(n as int)) by {
        assert(p.last() == k);
        assert(k != 's');
        assert(p.drop_last() =~= disk_id.push('s'));
        assert(p.drop_last().last() == 's');
        assert(last_s(p.drop_last()) == Some(n as int));
    }
    assert(p.subrange(4, n as int) =~= disk_id.skip(4));
    assert(p.skip(n as int + 1) =~= seq![k]);
    assert(p.take(n as int) =~= disk_id);
    assert(starts_with(p, "disk"@)) by {
        assert(p.subrange(0, 4) =~= disk_id.subrange(0, 4));
    }
    let one = seq![k];
    assert(one.drop_last() =~= Seq::<char>::empty());
    assert(crate::text::digits_value(one.drop_last()) == 0);
    assert(one.last() == k);
    assert(crate::text::digits_value(one) == crate::text::digits_value(one.drop_last()) * 10
        + crate::text::digit_value(one.last()));
    assert(crate::text::digits_value(one) == crate::text::digit_value(k));
    assert(all_digits(seq![k]));
    assert(seq![k][0] != '+');
}


/// A partition of the disk as `diskutil list` shows it (texts trimmed,
/// absent ones empty).
#[derive(Debug, Clone)]
pub struct ListedPartition {
    pub id: String,
    pub content: String,
    pub volume_name: String,
    pub mount_point: String,
    pub size: Option<u64>,
}

/// Where `x` goes among partitions ordered by number: after every entry
/// whose number is not larger.
pub open spec fn part_insert_pos(s: Seq<ListedPartition>, x: ListedPartition) -> int
    decreases s.len(),
{
    if s.len() == 0 {
        0
    } else if spec_partition_index(s.last().id@) <= spec_partition_index(x.id@) {
        s.len() as int
    } else {
        part_insert_pos(s.drop_last(), x)
    }
}

/// The partitions ordered by partition number, ties kept in order.
pub open spec fn sort_partitions(s: Seq<ListedPartition>) -> Seq<ListedPartition>
    decreases s.len(),
{
    if s.len() == 0 {
        s
    } else {
        let t = sort_partitions(s.drop_last());
        t.insert(part_insert_pos(t, s.last()), s.last())
    }
}

proof fn lemma_part_insert_pos_bound(s: Seq<ListedPartition>, x: ListedPartition)
    ensures
        0 <= part_insert_pos(s, x) <= s.len(),
    decreases s.len(),
{
    if s.len() > 0 {
        lemma_part_insert_pos_bound(s.drop_last(), x);
    }
}

fn copy_part(p: &ListedPartition) -> (r: ListedPartition)
    ensures
        r == *p,
{
    ListedPartition {
        id: p.id.clone(),
        content: p.content.clone(),
        volume_name: p.volume_name.clone(),
        mount_point: p.mount_point.clone(),
        size: p.size,
    }
}

/// Orders partitions by number (stable).
pub fn sort_partitions_by_index(parts: &Vec<ListedPartition>) -> (r: Vec<ListedPartition>)
    ensures
        r@ == sort_partitions(parts@),
{
    let mut out: Vec<ListedPartition> = Vec::new();
    let mut i: usize = 0;
    while i < parts.len()
        invariant
            i <= parts@.len(),
            out@ == sort_partitions(parts@.take(i as int)),
        decreases parts@.len() - i,
    {
        let x = copy_part(&parts[i]);
        let kx = partition_index_from_id(x.id.as_str());
        let mut pos: usize = out.len();
        assert(out@.take(pos as int) =~= out@);
        while pos > 0 && partition_index_from_id(out[pos - 1].id.as_str()) > kx
            invariant
                pos <= out@.len(),
                kx == spec_partition_index(x.id@),
                part_insert_pos(out@, x) == part_insert_pos(out@.take(pos as int), x),
            decreases pos,
        {
            assert(out@.take(pos as int).drop_last() =~= out@.take(pos - 1));
            pos = pos - 1;
        }
        proof {
            if pos > 0 {
                assert(out@.take(pos as int).last() == out@[pos - 1]);
            }
            assert(part_insert_pos(out@.take(pos as int), x) == pos);
            assert(parts@.take(i + 1).drop_last() =~= parts@.take(i as int));
            assert(parts@.take(i + 1).last() == x);
        }
        out.insert(pos, x);
        i = i + 1;
    }
    assert(parts@.take(i as int) =~= parts@);
    out
}

/// Partitions in non-decreasing order of partition number.
pub open spec fn parts_sorted(t: Seq<ListedPartition>) -> bool {
    forall|i: int, j: int|
        0 <= i <= j < t.len() ==> spec_partition_index(t[i].id@) <= spec_partition_index(t[j].id@)
}

proof fn lemma_part_insert_pos_split(t: Seq<ListedPartition>, x: ListedPartition)
    requires
        parts_sorted(t),
    ensures
        0 <= part_insert_pos(t, x) <= t.len(),
        forall|i: int|
            0 <= i < part_insert_pos(t, x) ==> spec_partition_index((#[trigger] t[i]).id@)
                <= spec_partition_index(x.id@),
        forall|i: int|
            part_insert_pos(t, x) <= i < t.len() ==> spec_partition_index((#[trigger] t[i]).id@)
                > spec_partition_index(x.id@),
    decreases t.len(),
{
    if t.len() > 0 {
        if spec_partition_index(t.last().id@) <= spec_partition_index(x.id@) {
            assert forall|i: int| 0 <= i < t.len() implies spec_partition_index(
                (#[trigger] t[i]).id@,
            ) <= spec_partition_index(x.id@) by {
                assert(spec_partition_index(t[i].id@) <= spec_partition_index(t[t.len() - 1].id@));
            }
        } else {
            let d = t.drop_last();
            assert(parts_sorted(d)) by {
                assert forall|i: int, j: int| 0 <= i <= j < d.len() implies spec_partition_index(
                    d[i].id@,
                ) <= spec_partition_index(d[j].id@) by {
                    assert(d[i] == t[i] && d[j] == t[j]);
                }
            }
            lemma_part_insert_pos_split(d, x);
            assert forall|i: int| part_insert_pos(t, x) <= i < t.len() implies spec_partition_index(
                (#[trigger] t[i]).id@,
            ) > spec_partition_index(x.id@) by {
                if i < t.len() - 1 {
                    assert(t[i] == d[i]);
                }
            }
            assert forall|i: int| 0 <= i < part_insert_pos(t, x) implies spec_partition_index(
                (#[trigger] t[i]).id@,
            ) <= spec_partition_index(x.id@) by {
                assert(t[i] == d[i]);
            }
        }
    }
}

/// The partitions of a disk come out ordered by partition number, and the
/// ordering keeps exactly the partitions it was given.
pub proof fn law_partition_order(s: Seq<ListedPartition>)
    ensures
        parts_sorted(sort_partitions(s)),
        sort_partitions(s).to_multiset() == s.to_multiset(),
    decreases s.len(),
{
    broadcast use vstd::seq_lib::group_to_multiset_ensures;

    if s.len() == 0 {
        assert(sort_partitions(s) == s);
    } else {
        law_partition_order(s.drop_last());
        let t = sort_partitions(s.drop_last());
        let x = s.last();
        let p = part_insert_pos(t, x);
        lemma_part_insert_pos_split(t, x);
        let u = t.insert(p, x);
        assert(sort_partitions(s) == u);
        assert forall|i: int, j: int| 0 <= i <= j < u.len() implies spec_partition_index(u[i].id@)
            <= spec_partition_index(u[j].id@) by {
            if i < p {
                assert(u[i] == t[i]);
                if j < p {
                    assert(u[j] == t[j]);
                } else if j > p {
                    assert(u[j] == t[j - 1]);
                    assert(spec_partition_index(t[j - 1].id@) > spec_partition_index(x.id@));
                }
            } else if i == p {
                if j > p {
                    assert(u[j] == t[j - 1]);
                    assert(spec_partition_index(t[j - 1].id@) > spec_partition_index(x.id@));
                }
            } else {
                assert(u[i] == t[i - 1]);
                assert(u[j] == t[j - 1]);
            }
        }
        assert(u.remove(p) =~= t);
        assert(u[p] == x);
        assert(u.contains(x));
        assert(u.to_multiset().count(x) > 0);
        assert(u.to_multiset().remove(x) == t.to_multiset());
        assert(u.to_multiset() =~= t.to_multiset().insert(x));
        assert(s.drop_last().push(x) =~= s);
    }
}

/// What the scan of the partitions has found so far.
pub struct PartScan {
    pub efi_named: Option<Seq<char>>,
    pub efi_content: Option<Seq<char>>,
    pub wtga: Option<Seq<char>>,
    pub largest_non_efi: Option<(Seq<char>, u64)>,
}

/// One partition of the scan: the first named `EFI`, the first whose
/// content mentions `efi`, the first named `WTGA`, and the largest of the
/// others (the later one on a tie).
pub open spec fn part_step(st: PartScan, p: ListedPartition) -> PartScan {
    let id = p.id@;
    let content = ascii_lower(p.content@);
    let vol = ascii_lower(p.volume_name@);
    let size = match p.size {
        Some(v) => v,
        None => 0u64,
    };
    let named = vol == "efi"@;
    let by_content = contains(content, "efi"@);
    if id.len() == 0 {
        st
    } else {
        PartScan {
            efi_named: if named && st.efi_named is None {
                Some(id)
            } else {
                st.efi_named
            },
            efi_content: if by_content && st.efi_content is None {
                Some(id)
            } else {
                st.efi_content
            },
            wtga: if vol == "wtga"@ && st.wtga is None {
                Some(id)
            } else {
                st.wtga
            },
            largest_non_efi: if !(named || by_content) && (match st.largest_non_efi {
                Some(l) => size >= l.1,
                None => true,
            }) {
                Some((id, size))
            } else {
                st.largest_non_efi
            },
        }
    }
}

pub open spec fn part_scan(ps: Seq<ListedPartition>) -> PartScan
    decreases ps.len(),
{
    if ps.len() == 0 {
        PartScan { efi_named: None, efi_content: None, wtga: None, largest_non_efi: None }
    } else {
        part_step(part_scan(ps.drop_last()), ps.last())
    }
}

/// The last partition (in the given order) with an id that is not the EFI one.
pub open spec fn last_non_efi(ps: Seq<ListedPartition>, efi: Option<Seq<char>>) -> Option<Seq<char>>
    decreases ps.len(),
{
    if ps.len() == 0 {
        None
    } else if ps.last().id@.len() > 0 && (match efi {
        Some(e) => ps.last().id@ != e,
        None => true,
    }) {
        Some(ps.last().id@)
    } else {
        last_non_efi(ps.drop_last(), efi)
    }
}

/// The partitions found on a freshly partitioned disk: EFI by name, else by
/// content; the system partition named `WTGA`, else the largest non-EFI
/// one, else the last that is not the EFI partition.
pub open spec fn spec_prepared(disk_id: Seq<char>, mode: BootMode, parts: Option<Seq<ListedPartition>>) -> Result<(Option<Seq<char>>, Seq<char>), Seq<char>> {
    match parts {
        None => Err("Cannot find target disk /dev/"@ + disk_id + " after repartition"@),
        Some(ps) => if ps.len() == 0 {
            Err("No partitions found on /dev/"@ + disk_id + " after repartition"@)
        } else {
            let sorted = sort_partitions(ps);
            let st = part_scan(sorted);
            let efi = match st.efi_named {
                Some(e) => Some(e),
                None => st.efi_content,
            };
            let system = match st.wtga {
                Some(w) => Some(w),
                None => match st.largest_non_efi {
                    Some(l) => Some(l.0),
                    None => last_non_efi(sorted, efi),
                },
            };
            match system {
                None => Err("Cannot resolve system partition on /dev/"@ + disk_id + " after repartition"@),
                Some(sys) => match mode {
                    BootMode::NonUefi => Ok((None, sys)),
                    _ => if efi is None {
                        Err("Cannot resolve EFI partition on /dev/"@ + disk_id + " after repartition"@)
                    } else {
                        Ok((efi, sys))
                    },
                },
            }
        },
    }
}

pub open spec fn opt_seq(o: Option<String>) -> Option<Seq<char>> {
    match o {
        Some(s) => Some(s@),
        None => None,
    }
}

fn eq_lit(s: &[char], lit: &str) -> (r: bool)
    ensures
        r == (s@ == lit@),
{
    let l = to_chars(lit);
    crate::text::chars_eq(s, l.as_slice())
}

fn disk_error_for(prefix: &str, disk_id: &str, suffix: &str) -> (e: AppError)
    ensures
        e matches AppError::DiskError(m) && m@ == prefix@ + disk_id@ + suffix@,
{
    let mut m = string_of(prefix);
    push_str(&mut m, disk_id);
    push_str(&mut m, suffix);
    AppError::DiskError(m)
}

fn find_last_non_efi(sorted: &Vec<ListedPartition>, efi: &Option<String>) -> (r: Option<String>)
    ensures
        opt_seq(r) == last_non_efi(sorted@, opt_seq(*efi)),
{
    let mut k: usize = sorted.len();
    assert(sorted@.take(k as int) =~= sorted@);
    while k > 0
        invariant
            k <= sorted@.len(),
            last_non_efi(sorted@, opt_seq(*efi)) == last_non_efi(sorted@.take(k as int), opt_seq(*efi)),
        decreases k,
    {
        let q = &sorted[k - 1];
        assert(sorted@.take(k as int).last() == sorted@[k - 1]);
        assert(sorted@.take(k as int).drop_last() =~= sorted@.take(k - 1));
        let ok = q.id.unicode_len() > 0 && match efi {
            Some(e) => {
                let a = to_chars(q.id.as_str());
                let b = to_chars(e.as_str());
                !crate::text::chars_eq(a.as_slice(), b.as_slice())
            },
            None => true,
        };
        if ok {
            return Some(q.id.clone());
        }
        k = k - 1;
    }
    None
}

/// Finds the EFI and system partitions of the freshly partitioned disk from
/// its listed partitions (`None` when the listing does not show the disk).
pub fn resolve_prepared_partitions(disk_id: &str, mode: &BootMode, parts: Option<Vec<ListedPartition>>) -> (r: Result<PreparedTargetDisk, AppError>)
    ensures
        match spec_prepared(disk_id@, *mode, match parts {
            Some(v) => Some(v@),
            None => None,
        }) {
            Ok((efi, sys)) => r matches Ok(p) && opt_seq(p.efi_partition_id) == efi && p.system_partition_id@ == sys,
            Err(m) => r matches Err(AppError::DiskError(x)) && x@ == m,
        },
{
    let ps = match parts {
        None => {
            return Err(disk_error_for("Cannot find target disk /dev/", disk_id, " after repartition"));
        },
        Some(v) => v,
    };
    if ps.len() == 0 {
        return Err(disk_error_for("No partitions found on /dev/", disk_id, " after repartition"));
    }
    let sorted = sort_partitions_by_index(&ps);
    let mut efi_named: Option<String> = None;
    let mut efi_content: Option<String> = None;
    let mut wtga: Option<String> = None;
    let mut largest: Option<(String, u64)> = None;
    let mut i: usize = 0;
    while i < sorted.len()
        invariant
            i <= sorted@.len(),
            opt_seq(efi_named) == part_scan(sorted@.take(i as int)).efi_named,
            opt_seq(efi_content) == part_scan(sorted@.take(i as int)).efi_content,
            opt_seq(wtga) == part_scan(sorted@.take(i as int)).wtga,
            (match largest {
                Some(l) => Some((l.0@, l.1)),
                None => None,
            }) == part_scan(sorted@.take(i as int)).largest_non_efi,
        decreases sorted@.len() - i,
    {
        assert(sorted@.take(i + 1).drop_last() =~= sorted@.take(i as int));
        assert(sorted@.take(i + 1).last() == sorted@[i as int]);
        let p = &sorted[i];
        if p.id.unicode_len() > 0 {
            let cc = to_chars(p.content.as_str());
            let content = lower_chars(cc.as_slice());
            let vc = to_chars(p.volume_name.as_str());
            let vol = lower_chars(vc.as_slice());
            let size: u64 = match p.size {
                Some(v) => v,
                None => 0,
            };
            let named = eq_lit(vol.as_slice(), "efi");
            let efi_lit = to_chars("efi");
            let by_content = contains_chars(content.as_slice(), efi_lit.as_slice());
            if named && efi_named.is_none() {
                efi_named = Some(p.id.clone());
            }
            if by_content && efi_content.is_none() {
                efi_content = Some(p.id.clone());
            }
            if eq_lit(vol.as_slice(), "wtga") && wtga.is_none() {
                wtga = Some(p.id.clone());
            }
            if !(named || by_content) {
                let replace = match &largest {
                    Some(l) => size >= l.1,
                    None => true,
                };
                if replace {
                    largest = Some((p.id.clone(), size));
                }
            }
        }
        i = i + 1;
    }
    assert(sorted@.take(i as int) =~= sorted@);
    let efi: Option<String> = match efi_named {
        Some(e) => Some(e),
        None => efi_content,
    };
    let mut system: Option<String> = match wtga {
        Some(w) => Some(w),
        None => match largest {
            Some(l) => Some(l.0),
            None => None,
        },
    };
    if system.is_none() {
        system = find_last_non_efi(&sorted, &efi);
    }
    let sys = match system {
        None => {
            return Err(disk_error_for("Cannot resolve system partition on /dev/", disk_id, " after repartition"));
        },
        Some(s) => s,
    };
    match mode {
        BootMode::NonUefi => Ok(PreparedTargetDisk { efi_partition_id: None, system_partition_id: sys }),
        _ => if efi.is_none() {
            Err(disk_error_for("Cannot resolve EFI partition on /dev/", disk_id, " after repartition"))
        } else {
            Ok(PreparedTargetDisk { efi_partition_id: efi, system_partition_id: sys })
        },
    }
}


// ---------------------------------------------------------------------------
// Whether the target volume can be written
// ---------------------------------------------------------------------------

/// A mounted partition of the target and what probing it found (none when
/// its details could not be read).
#[derive(Debug, Clone)]
pub struct MountCandidate {
    pub partition_id: String,
    pub mount_point: String,
    pub probe: Option<VolumeProbe>,
}

/// A probed volume: its file system as diskutil names it, and whether the
/// volume is writable and a file can be created in its root.
#[derive(Debug, Clone)]
pub struct VolumeProbe {
    pub filesystem: String,
    pub writable_volume: bool,
    pub dir_writable: bool,
}

pub open spec fn is_mounted(c: MountCandidate) -> bool {
    c.partition_id@.len() > 0 && c.mount_point@.len() > 0
}

pub open spec fn probe_writable(c: MountCandidate) -> bool {
    c.probe matches Some(p) && p.writable_volume && p.dir_writable
}

pub open spec fn probe_ntfs(c: MountCandidate) -> bool {
    c.probe matches Some(p) && ascii_lower(p.filesystem@) == "ntfs"@
}

/// The first candidate (in order) with the property, among the mounted ones.
pub open spec fn first_where(cs: Seq<MountCandidate>, f: spec_fn(MountCandidate) -> bool) -> Option<int>
    decreases cs.len(),
{
    if cs.len() == 0 {
        None
    } else {
        match first_where(cs.drop_last(), f) {
            Some(i) => Some(i),
            None => if is_mounted(cs.last()) && f(cs.last()) {
                Some(cs.len() - 1)
            } else {
                None
            },
        }
    }
}

/// The partition to check: the first mounted one that is writable, else the
/// first mounted NTFS one, else the first mounted one.
pub open spec fn spec_choose_mounted(cs: Seq<MountCandidate>) -> Option<int> {
    match first_where(cs, |c: MountCandidate| probe_writable(c)) {
        Some(i) => Some(i),
        None => match first_where(cs, |c: MountCandidate| probe_ntfs(c)) {
            Some(i) => Some(i),
            None => first_where(cs, |c: MountCandidate| true),
        },
    }
}

proof fn lemma_first_where_take(cs: Seq<MountCandidate>, f: spec_fn(MountCandidate) -> bool, k: int)
    requires
        0 <= k < cs.len(),
        first_where(cs.take(k), f) is None,
    ensures
        first_where(cs.take(k + 1), f) == (if is_mounted(cs[k]) && f(cs[k]) {
            Some(k)
        } else {
            None::<int>
        }),
{
    assert(cs.take(k + 1).drop_last() =~= cs.take(k));
}

proof fn lemma_first_where_grow(cs: Seq<MountCandidate>, f: spec_fn(MountCandidate) -> bool, k: int, j: int)
    requires
        0 <= k <= cs.len(),
        first_where(cs.take(k), f) == Some(j),
    ensures
        first_where(cs, f) == Some(j),
    decreases cs.len() - k,
{
    if k < cs.len() {
        assert(cs.take(k + 1).drop_last() =~= cs.take(k));
        lemma_first_where_grow(cs, f, k + 1, j);
    } else {
        assert(cs.take(k) =~= cs);
    }
}

fn is_ntfs_name(fs: &str) -> (r: bool)
    ensures
        r == (ascii_lower(fs@) == "ntfs"@),
{
    let c = to_chars(fs);
    let l = lower_chars(c.as_slice());
    eq_lit(l.as_slice(), "ntfs")
}

fn first_where_exec(cs: &Vec<MountCandidate>, which: u8) -> (r: Option<usize>)
    requires
        which <= 2,
    ensures
        ({
            let f = if which == 0 {
                |c: MountCandidate| probe_writable(c)
            } else if which == 1 {
                |c: MountCandidate| probe_ntfs(c)
            } else {
                |c: MountCandidate| true
            };
            match r {
                Some(i) => first_where(cs@, f) == Some(i as int),
                None => first_where(cs@, f) is None,
            }
        }),
{
    let ghost f = if which == 0 {
        |c: MountCandidate| probe_writable(c)
    } else if which == 1 {
        |c: MountCandidate| probe_ntfs(c)
    } else {
        |c: MountCandidate| true
    };
    let mut i: usize = 0;
    while i < cs.len()
        invariant
            i <= cs@.len(),
            which <= 2,
            f == (if which == 0 {
                |c: MountCandidate| probe_writable(c)
            } else if which == 1 {
                |c: MountCandidate| probe_ntfs(c)
            } else {
                |c: MountCandidate| true
            }),
            first_where(cs@.take(i as int), f) is None,
        decreases cs@.len() - i,
    {
        proof {
            lemma_first_where_take(cs@, f, i as int);
        }
        let c = &cs[i];
        let mounted = c.partition_id.unicode_len() > 0 && c.mount_point.unicode_len() > 0;
        let hit = mounted && (if which == 0 {
            match &c.probe {
                Some(p) => p.writable_volume && p.dir_writable,
                None => false,
            }
        } else if which == 1 {
            match &c.probe {
                Some(p) => is_ntfs_name(p.filesystem.as_str()),
                None => false,
            }
        } else {
            true
        });
        if hit {
            proof {
                lemma_first_where_grow(cs@, f, i as int + 1, i as int);
            }
            return Some(i);
        }
        i = i + 1;
    }
    assert(cs@.take(i as int) =~= cs@);
    None
}

/// Which mounted partition of the target to check (see `spec_choose_mounted`).
pub fn choose_mounted_partition(cs: &Vec<MountCandidate>) -> (r: Option<usize>)
    ensures
        match r {
            Some(i) => spec_choose_mounted(cs@) == Some(i as int),
            None => spec_choose_mounted(cs@) is None,
        },
{
    match first_where_exec(cs, 0) {
        Some(i) => Some(i),
        None => match first_where_exec(cs, 1) {
            Some(i) => Some(i),
            None => first_where_exec(cs, 2),
        },
    }
}

/// Whether the target volume can be written, and why not.
#[derive(Debug, Clone)]
pub struct MacosTargetWritableCheck {
    pub supported: bool,
    pub disk_id: String,
    pub partition_id: Option<String>,
    pub mount_point: Option<String>,
    pub filesystem: String,
    pub writable_volume: bool,
    pub dir_writable: bool,
    pub writable: bool,
    pub needs_ntfs_remount: bool,
    pub reason: Option<String>,
}

/// The mounted partition that was checked and what probing it found.
#[derive(Debug, Clone)]
pub struct CheckedVolume {
    pub partition_id: String,
    pub mount_point: String,
    pub filesystem: String,
    pub writable_volume: bool,
    pub dir_writable: bool,
}

/// The check of a target disk: writable when the volume is writable and a
/// file can be created; an NTFS volume that is not needs a remount.
pub fn check_target_writable(disk_id: &str, checked: Option<CheckedVolume>) -> (r: MacosTargetWritableCheck)
    ensures
        r.supported,
        r.disk_id@ == disk_id@,
        checked is None ==> {
            &&& r.partition_id is None && r.mount_point is None
            &&& r.filesystem@.len() == 0 && !r.writable_volume && !r.dir_writable && !r.writable
                && !r.needs_ntfs_remount
            &&& r.reason matches Some(m) && m@ == "No mounted partition found on target disk"@
        },
        checked matches Some(c) ==> {
            let fs = ascii_lower(c.filesystem@);
            let w = c.writable_volume && c.dir_writable;
            &&& opt_seq(r.partition_id) == Some(c.partition_id@)
            &&& opt_seq(r.mount_point) == Some(c.mount_point@)
            &&& r.filesystem@ == fs
            &&& r.writable_volume == c.writable_volume
            &&& r.dir_writable == c.dir_writable
            &&& r.writable == w
            &&& r.needs_ntfs_remount == (!w && fs == "ntfs"@)
            &&& w ==> r.reason is None
            &&& (!w && fs == "ntfs"@) ==> (r.reason matches Some(m) && m@ == "Target NTFS volume is mounted read-only"@)
            &&& (!w && fs != "ntfs"@) ==> (r.reason matches Some(m) && m@ == "Target volume is not writable (filesystem: "@
                + (if fs.len() == 0 {
                "unknown"@
            } else {
                fs
            }) + ")"@)
        },
{
    match checked {
        None => MacosTargetWritableCheck {
            supported: true,
            disk_id: string_of(disk_id),
            partition_id: None,
            mount_point: None,
            filesystem: String::new(),
            writable_volume: false,
            dir_writable: false,
            writable: false,
            needs_ntfs_remount: false,
            reason: Some(string_of("No mounted partition found on target disk")),
        },
        Some(c) => {
            let fc = to_chars(c.filesystem.as_str());
            let fl = lower_chars(fc.as_slice());
            let fs = from_chars(fl.as_slice());
            let writable = c.writable_volume && c.dir_writable;
            let ntfs = eq_lit(fl.as_slice(), "ntfs");
            let needs = !writable && ntfs;
            let reason = if writable {
                None
            } else if needs {
                Some(string_of("Target NTFS volume is mounted read-only"))
            } else {
                let mut m = string_of("Target volume is not writable (filesystem: ");
                if fl.len() == 0 {
                    push_str(&mut m, "unknown");
                } else {
                    push_chars(&mut m, fl.as_slice());
                }
                push_str(&mut m, ")");
                Some(m)
            };
            MacosTargetWritableCheck {
                supported: true,
                disk_id: string_of(disk_id),
                partition_id: Some(c.partition_id),
                mount_point: Some(c.mount_point),
                filesystem: fs,
                writable_volume: c.writable_volume,
                dir_writable: c.dir_writable,
                writable,
                needs_ntfs_remount: needs,
                reason,
            }
        },
    }
}

/// What remounting the target as writable NTFS does next.
pub enum RemountNext {
    /// The volume is writable already.
    AlreadyWritable,
    /// Run the NTFS mount script with privileges, then check again.
    RunMountScript,
}

/// The first step of `remount_target_ntfs_writable`: nothing to do for a
/// writable volume; an error for one that does not need an NTFS remount
/// (its reason) or when ntfs-3g is missing; else the mount script.
pub fn remount_target_ntfs_writable(before: &MacosTargetWritableCheck, ntfs_3g_available: bool) -> (r: Result<RemountNext, AppError>)
    ensures
        before.writable ==> r matches Ok(RemountNext::AlreadyWritable),
        !before.writable && !before.needs_ntfs_remount ==> (r matches Err(AppError::DiskError(m)) && m@ == match before.reason {
            Some(x) => x@,
            None => "Target volume does not require NTFS remount"@,
        }),
        !before.writable && before.needs_ntfs_remount && !ntfs_3g_available ==> (r matches Err(AppError::DiskError(m)) && m@
            == "NTFS target detected but ntfs-3g is missing. Install with: brew install --cask macfuse && brew tap gromgit/homebrew-fuse && brew install ntfs-3g-mac"@),
        !before.writable && before.needs_ntfs_remount && ntfs_3g_available ==> r matches Ok(RemountNext::RunMountScript),
{
    if before.writable {
        return Ok(RemountNext::AlreadyWritable);
    }
    if !before.needs_ntfs_remount {
        let m = match &before.reason {
            Some(x) => x.clone(),
            None => string_of("Target volume does not require NTFS remount"),
        };
        return Err(AppError::DiskError(m));
    }
    if !ntfs_3g_available {
        return Err(AppError::DiskError(string_of(
            "NTFS target detected but ntfs-3g is missing. Install with: brew install --cask macfuse && brew tap gromgit/homebrew-fuse && brew install ntfs-3g-mac",
        )));
    }
    Ok(RemountNext::RunMountScript)
}

/// The end of a remount: the check after it, or an error naming what is
/// still not writable.
pub fn remount_outcome(after: MacosTargetWritableCheck) -> (r: Result<MacosTargetWritableCheck, AppError>)
    ensures
        after.writable ==> (r matches Ok(c) && c == after),
        !after.writable ==> (r matches Err(AppError::DiskError(m)) && m@
            == "NTFS remount finished but target volume is still not writable: "@ + match after.mount_point {
            Some(x) => x@,
            None => after.disk_id@,
        }),
{
    if after.writable {
        return Ok(after);
    }
    let mut m = string_of("NTFS remount finished but target volume is still not writable: ");
    match &after.mount_point {
        Some(x) => push_str(&mut m, x.as_str()),
        None => push_str(&mut m, after.disk_id.as_str()),
    }
    Err(AppError::DiskError(m))
}


// ---------------------------------------------------------------------------
// Shell commands of the privileged steps
// ---------------------------------------------------------------------------

/// A value in single quotes, escaped.
pub open spec fn quoted(v: Seq<char>) -> Seq<char> {
    "'"@ + shell_escaped(v) + "'"@
}

fn push_quoted(s: &mut String, v: &str)
    ensures
        final(s)@ == old(s)@ + quoted(v@),
{
    push_str(s, "'");
    let e = shell_escape_single_quotes(v);
    push_str(s, e.as_str());
    push_str(s, "'");
}

pub open spec fn format_ntfs_tail() -> Seq<char> {
    "; [ -n \"$PARENT\" ] && diskutil unmountDisk force \"/dev/$PARENT\" >/dev/null 2>&1 || true; diskutil unmount force \"$DEV\" >/dev/null 2>&1 || true; if [ \"$START\" != \"0\" ]; then START_OPT=\"-p $START\"; else START_OPT=\"\"; fi; \"$MKFS\" -Q -F -L \"$LABEL\" $START_OPT \"$RAW\" >/tmp/wtga-mkntfs.log 2>&1; EXIT_CODE=$?; if [ $EXIT_CODE -ne 0 ]; then \"$MKFS\" -Q -F -L \"$LABEL\" $START_OPT \"$DEV\" >>/tmp/wtga-mkntfs.log 2>&1; EXIT_CODE=$?; fi; /bin/cat /tmp/wtga-mkntfs.log 2>/dev/null || true; /bin/rm -f /tmp/wtga-mkntfs.log; if [ $EXIT_CODE -ne 0 ]; then exit $EXIT_CODE; fi; diskutil mount \"$DEV\" >/dev/null 2>&1 || true; exit 0"@
}

/// The start sector of a partition: its offset over the block size, when
/// both are known and non-zero.
pub open spec fn spec_start_sector(offset: Option<u64>, block_size: Option<u64>) -> Option<u64> {
    let off = match offset {
        Some(v) => v,
        None => 0u64,
    };
    let bs = match block_size {
        Some(v) => v,
        None => 512u64,
    };
    if off > 0 && bs > 0 {
        Some((off / bs) as u64)
    } else {
        None
    }
}

/// The script that formats a partition as NTFS with the given label: it
/// unmounts the parent disk and the partition, runs the formatter on the
/// raw device (then the block device), shows its log, and mounts again.
pub fn format_partition_ntfs_command(
    partition_id: &str,
    label: &str,
    mkfs: &str,
    offset: Option<u64>,
    block_size: Option<u64>,
) -> (r: String)
    ensures
        r@ == "DEV="@ + quoted("/dev/"@ + partition_id@) + "; RAW="@ + quoted(
            "/dev/r"@ + partition_id@,
        ) + "; LABEL="@ + quoted(label@) + "; MKFS="@ + quoted(mkfs@) + "; PARENT="@ + quoted(
            match spec_parent_disk(partition_id@) {
                Some(d) => d,
                None => Seq::<char>::empty(),
            },
        ) + "; START="@ + quoted(
            match spec_start_sector(offset, block_size) {
                Some(v) => decimal(v as nat),
                None => "0"@,
            },
        ) + format_ntfs_tail(),
{
    let mut dev = string_of("/dev/");
    push_str(&mut dev, partition_id);
    let mut raw = string_of("/dev/r");
    push_str(&mut raw, partition_id);
    let parent = match parent_disk_id_from_partition(partition_id) {
        Some(d) => d,
        None => String::new(),
    };
    let off: u64 = match offset {
        Some(v) => v,
        None => 0,
    };
    let bs: u64 = match block_size {
        Some(v) => v,
        None => 512,
    };
    let start = if off > 0 && bs > 0 {
        let mut t = String::new();
        push_decimal(&mut t, off / bs);
        t
    } else {
        string_of("0")
    };
    proof {
        reveal_strlit("");
    }
    let mut s = string_of("DEV=");
    push_quoted(&mut s, dev.as_str());
    push_str(&mut s, "; RAW=");
    push_quoted(&mut s, raw.as_str());
    push_str(&mut s, "; LABEL=");
    push_quoted(&mut s, label);
    push_str(&mut s, "; MKFS=");
    push_quoted(&mut s, mkfs);
    push_str(&mut s, "; PARENT=");
    push_quoted(&mut s, parent.as_str());
    push_str(&mut s, "; START=");
    push_quoted(&mut s, start.as_str());
    push_str(&mut s, "; [ -n \"$PARENT\" ] && diskutil unmountDisk force \"/dev/$PARENT\" >/dev/null 2>&1 || true; diskutil unmount force \"$DEV\" >/dev/null 2>&1 || true; if [ \"$START\" != \"0\" ]; then START_OPT=\"-p $START\"; else START_OPT=\"\"; fi; \"$MKFS\" -Q -F -L \"$LABEL\" $START_OPT \"$RAW\" >/tmp/wtga-mkntfs.log 2>&1; EXIT_CODE=$?; if [ $EXIT_CODE -ne 0 ]; then \"$MKFS\" -Q -F -L \"$LABEL\" $START_OPT \"$DEV\" >>/tmp/wtga-mkntfs.log 2>&1; EXIT_CODE=$?; fi; /bin/cat /tmp/wtga-mkntfs.log 2>/dev/null || true; /bin/rm -f /tmp/wtga-mkntfs.log; if [ $EXIT_CODE -ne 0 ]; then exit $EXIT_CODE; fi; diskutil mount \"$DEV\" >/dev/null 2>&1 || true; exit 0");
    s
}

pub open spec fn mount_ntfs_tail() -> Seq<char> {
    "; diskutil unmount force \"$DEV\" >/dev/null 2>&1 || true; /bin/mkdir -p \"$MNT\"; ntfs-3g \"$RAW\" \"$MNT\" -o rw -o big_writes -o noatime -o noappledouble -o local -o volname=\"$LABEL\" -o nonempty >/tmp/wtga-ntfs3g.log 2>&1; EXIT_CODE=$?; if [ $EXIT_CODE -ne 0 ]; then ntfs-3g \"$DEV\" \"$MNT\" -o rw -o big_writes -o noatime -o noappledouble -o local -o volname=\"$LABEL\" -o nonempty >>/tmp/wtga-ntfs3g.log 2>&1; EXIT_CODE=$?; fi; if [ $EXIT_CODE -ne 0 ]; then ntfs-3g \"$DEV\" \"$MNT\" -o rw -o nonempty >>/tmp/wtga-ntfs3g.log 2>&1; EXIT_CODE=$?; fi; /bin/cat /tmp/wtga-ntfs3g.log 2>/dev/null || true; /bin/rm -f /tmp/wtga-ntfs3g.log; exit $EXIT_CODE"@
}

/// Where the NTFS system partition is mounted writable.
pub open spec fn ntfs_mount_point(partition_id: Seq<char>) -> Seq<char> {
    "/Volumes/WTGA-"@ + partition_id
}

/// The script that mounts a partition writable with ntfs-3g at
/// `/Volumes/WTGA-<id>`, trying the raw device, then the block device with
/// the same options, then with the basic ones.
pub fn mount_ntfs_writable_command(partition_id: &str, label: &str) -> (r: String)
    ensures
        r@ == "DEV="@ + quoted("/dev/"@ + partition_id@) + "; RAW="@ + quoted(
            "/dev/r"@ + partition_id@,
        ) + "; MNT="@ + quoted(ntfs_mount_point(partition_id@)) + "; LABEL="@ + quoted(label@)
            + mount_ntfs_tail(),
{
    let mut dev = string_of("/dev/");
    push_str(&mut dev, partition_id);
    let mut raw = string_of("/dev/r");
    push_str(&mut raw, partition_id);
    let mut mnt = string_of("/Volumes/WTGA-");
    push_str(&mut mnt, partition_id);
    let mut s = string_of("DEV=");
    push_quoted(&mut s, dev.as_str());
    push_str(&mut s, "; RAW=");
    push_quoted(&mut s, raw.as_str());
    push_str(&mut s, "; MNT=");
    push_quoted(&mut s, mnt.as_str());
    push_str(&mut s, "; LABEL=");
    push_quoted(&mut s, label);
    push_str(&mut s, "; diskutil unmount force \"$DEV\" >/dev/null 2>&1 || true; /bin/mkdir -p \"$MNT\"; ntfs-3g \"$RAW\" \"$MNT\" -o rw -o big_writes -o noatime -o noappledouble -o local -o volname=\"$LABEL\" -o nonempty >/tmp/wtga-ntfs3g.log 2>&1; EXIT_CODE=$?; if [ $EXIT_CODE -ne 0 ]; then ntfs-3g \"$DEV\" \"$MNT\" -o rw -o big_writes -o noatime -o noappledouble -o local -o volname=\"$LABEL\" -o nonempty >>/tmp/wtga-ntfs3g.log 2>&1; EXIT_CODE=$?; fi; if [ $EXIT_CODE -ne 0 ]; then ntfs-3g \"$DEV\" \"$MNT\" -o rw -o nonempty >>/tmp/wtga-ntfs3g.log 2>&1; EXIT_CODE=$?; fi; /bin/cat /tmp/wtga-ntfs3g.log 2>/dev/null || true; /bin/rm -f /tmp/wtga-ntfs3g.log; exit $EXIT_CODE");
    s
}

/// The command that mounts a partition with diskutil (failures ignored).
pub fn mount_partition_command(partition_id: &str) -> (r: String)
    ensures
        r@ == "diskutil mount "@ + quoted("/dev/"@ + partition_id@) + " >/dev/null 2>&1 || true"@,
{
    let mut dev = string_of("/dev/");
    push_str(&mut dev, partition_id);
    let mut s = string_of("diskutil mount ");
    push_quoted(&mut s, dev.as_str());
    push_str(&mut s, " >/dev/null 2>&1 || true");
    s
}

/// The command that applies the image's index to the mounted system.
pub fn apply_windows_image_command(source_image: &str, wim_index: &str, target_mount: &str) -> (r: String)
    ensures
        r@ == "wimlib-imagex apply "@ + quoted(source_image@) + " "@ + quoted(wim_index@) + " "@
            + quoted(target_mount@),
{
    let mut s = string_of("wimlib-imagex apply ");
    push_quoted(&mut s, source_image);
    push_str(&mut s, " ");
    push_quoted(&mut s, wim_index);
    push_str(&mut s, " ");
    push_quoted(&mut s, target_mount);
    s
}

pub open spec fn stage_payload_tail() -> Seq<char> {
    "; SRC=\"$SYS/Windows/Boot/EFI\"; DST=\"$EFI/EFI/Microsoft/Boot\"; FB=\"$EFI/EFI/Boot\"; if [ ! -d \"$SRC\" ]; then echo 'Windows/Boot/EFI directory not found in applied system'; exit 2; fi; /bin/mkdir -p \"$DST\" \"$FB\"; /bin/cp -R \"$SRC/.\" \"$DST/\"; if [ ! -f \"$DST/bootmgfw.efi\" ]; then echo 'bootmgfw.efi not found after payload copy'; exit 3; fi; /bin/cp -f \"$DST/bootmgfw.efi\" \"$FB/bootx64.efi\"; exit 0"@
}

/// The script that copies the system's EFI boot files onto the EFI
/// partition and puts the fallback loader in place.
pub fn stage_uefi_boot_payload_command(system_mount: &str, efi_mount: &str) -> (r: String)
    ensures
        r@ == "SYS="@ + quoted(system_mount@) + "; EFI="@ + quoted(efi_mount@) + stage_payload_tail(),
{
    let mut s = string_of("SYS=");
    push_quoted(&mut s, system_mount);
    push_str(&mut s, "; EFI=");
    push_quoted(&mut s, efi_mount);
    push_str(&mut s, "; SRC=\"$SYS/Windows/Boot/EFI\"; DST=\"$EFI/EFI/Microsoft/Boot\"; FB=\"$EFI/EFI/Boot\"; if [ ! -d \"$SRC\" ]; then echo 'Windows/Boot/EFI directory not found in applied system'; exit 2; fi; /bin/mkdir -p \"$DST\" \"$FB\"; /bin/cp -R \"$SRC/.\" \"$DST/\"; if [ ! -f \"$DST/bootmgfw.efi\" ]; then echo 'bootmgfw.efi not found after payload copy'; exit 3; fi; /bin/cp -f \"$DST/bootmgfw.efi\" \"$FB/bootx64.efi\"; exit 0");
    s
}

pub open spec fn repair_bcd_tail() -> Seq<char> {
    "; DST=\"$EFI/EFI/Microsoft/Boot\"; FB=\"$EFI/EFI/Boot\"; BCD=\"$DST/BCD\"; C1=\"$SYS/Windows/Boot/EFI/BCD\"; C2=\"$SYS/Boot/BCD\"; C3=\"$SYS/Windows/System32/config/BCD-Template\"; /bin/mkdir -p \"$DST\" \"$FB\"; if [ ! -f \"$BCD\" ]; then if [ -f \"$C1\" ]; then /bin/cp -f \"$C1\" \"$BCD\"; elif [ -f \"$C2\" ]; then /bin/cp -f \"$C2\" \"$BCD\"; elif [ -f \"$C3\" ]; then /bin/cp -f \"$C3\" \"$BCD\"; fi; fi; if [ ! -f \"$BCD\" ]; then echo 'No valid BCD source found'; exit 4; fi; HDR=$(/usr/bin/hexdump -n 4 -ve '1/1 \"%02x\"' \"$BCD\" 2>/dev/null || true); if [ \"$HDR\" != \"72656766\" ]; then echo \"Invalid BCD hive header: $HDR\"; exit 5; fi; /bin/cp -f \"$BCD\" \"$DST/BCD.wtga.bak\"; /bin/cp -f \"$BCD\" \"$FB/BCD\"; exit 0"@
}

/// The script that puts a BCD store on the EFI partition (from the first
/// source the system has), checks its hive header and keeps copies.
pub fn repair_uefi_bcd_store_command(system_mount: &str, efi_mount: &str) -> (r: String)
    ensures
        r@ == "SYS="@ + quoted(system_mount@) + "; EFI="@ + quoted(efi_mount@) + repair_bcd_tail(),
{
    let mut s = string_of("SYS=");
    push_quoted(&mut s, system_mount);
    push_str(&mut s, "; EFI=");
    push_quoted(&mut s, efi_mount);
    push_str(&mut s, "; DST=\"$EFI/EFI/Microsoft/Boot\"; FB=\"$EFI/EFI/Boot\"; BCD=\"$DST/BCD\"; C1=\"$SYS/Windows/Boot/EFI/BCD\"; C2=\"$SYS/Boot/BCD\"; C3=\"$SYS/Windows/System32/config/BCD-Template\"; /bin/mkdir -p \"$DST\" \"$FB\"; if [ ! -f \"$BCD\" ]; then if [ -f \"$C1\" ]; then /bin/cp -f \"$C1\" \"$BCD\"; elif [ -f \"$C2\" ]; then /bin/cp -f \"$C2\" \"$BCD\"; elif [ -f \"$C3\" ]; then /bin/cp -f \"$C3\" \"$BCD\"; fi; fi; if [ ! -f \"$BCD\" ]; then echo 'No valid BCD source found'; exit 4; fi; HDR=$(/usr/bin/hexdump -n 4 -ve '1/1 \"%02x\"' \"$BCD\" 2>/dev/null || true); if [ \"$HDR\" != \"72656766\" ]; then echo \"Invalid BCD hive header: $HDR\"; exit 5; fi; /bin/cp -f \"$BCD\" \"$DST/BCD.wtga.bak\"; /bin/cp -f \"$BCD\" \"$FB/BCD\"; exit 0");
    s
}

/// The command that runs the staged NTFS mount script (forced when asked)
/// with the Homebrew paths, removes it, and keeps its exit code.
pub fn ntfs_mount_script_command(script_path: &str, force: bool) -> (r: String)
    ensures
        r@ == "cd /tmp || true; export PATH='/opt/homebrew/bin:/opt/homebrew/sbin:/usr/local/bin:/usr/local/sbin:/usr/bin:/bin:/usr/sbin:/sbin:$PATH'; "@ + (if force {
            "WTGA_NTFS_FORCE=1 /bin/bash "@
        } else {
            "/bin/bash "@
        }) + quoted(script_path@) + "; EXIT_CODE=$?; /bin/rm -f "@ + quoted(script_path@)
            + "; exit $EXIT_CODE"@,
{
    let mut s = string_of("cd /tmp || true; export PATH='/opt/homebrew/bin:/opt/homebrew/sbin:/usr/local/bin:/usr/local/sbin:/usr/bin:/bin:/usr/sbin:/sbin:$PATH'; ");
    if force {
        push_str(&mut s, "WTGA_NTFS_FORCE=1 /bin/bash ");
    } else {
        push_str(&mut s, "/bin/bash ");
    }
    push_quoted(&mut s, script_path);
    push_str(&mut s, "; EXIT_CODE=$?; /bin/rm -f ");
    push_quoted(&mut s, script_path);
    push_str(&mut s, "; exit $EXIT_CODE");
    s
}

/// The `diskutil partitionDisk` command for the boot mode: FAT32 EFI
/// (512 MB) and ExFAT `WTGA` on GPT or MBR, or ExFAT alone for BIOS.
pub fn prepare_target_disk_command(mode: &BootMode, disk_id: &str) -> (r: String)
    ensures
        r@ == "diskutil partitionDisk /dev/"@ + disk_id@ + match *mode {
            BootMode::UefiGpt => " GPT FAT32 EFI 512m ExFAT WTGA R"@,
            BootMode::UefiMbr => " MBRFormat FAT32 EFI 512m ExFAT WTGA R"@,
            BootMode::NonUefi => " MBRFormat ExFAT WTGA R"@,
        },
{
    let mut s = string_of("diskutil partitionDisk /dev/");
    push_str(&mut s, disk_id);
    match mode {
        BootMode::UefiGpt => push_str(&mut s, " GPT FAT32 EFI 512m ExFAT WTGA R"),
        BootMode::UefiMbr => push_str(&mut s, " MBRFormat FAT32 EFI 512m ExFAT WTGA R"),
        BootMode::NonUefi => push_str(&mut s, " MBRFormat ExFAT WTGA R"),
    }
    s
}

/// The check after formatting: the system partition must now be NTFS.
pub fn verify_ntfs_format(system_partition_id: &str, filesystem: &str) -> (r: Result<(), AppError>)
    ensures
        contains(ascii_lower(filesystem@), "ntfs"@) <==> r is Ok,
        r matches Err(e) ==> (e matches AppError::DiskError(m) && m@ == "System partition "@ + system_partition_id@
            + " format verification failed: expected NTFS but got '"@ + (if ascii_lower(filesystem@).len() == 0 {
            "unknown"@
        } else {
            ascii_lower(filesystem@)
        }) + "'"@),
{
    let c = to_chars(filesystem);
    let l = lower_chars(c.as_slice());
    let n = to_chars("ntfs");
    if contains_chars(l.as_slice(), n.as_slice()) {
        return Ok(());
    }
    let mut m = string_of("System partition ");
    push_str(&mut m, system_partition_id);
    push_str(&mut m, " format verification failed: expected NTFS but got '");
    if l.len() == 0 {
        push_str(&mut m, "unknown");
    } else {
        push_chars(&mut m, l.as_slice());
    }
    push_str(&mut m, "'");
    Err(AppError::DiskError(m))
}

} // verus!

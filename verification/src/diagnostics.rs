//! Disk diagnostics: SMART attribute names, merging what the native
//! readers and smartctl report, and the smartctl probing plan.

use crate::boot::strs;
use crate::nvme::{NVMeIdentifyInfo, NVMeSmartData};
use crate::text::{ascii_lower, contains, contains_chars, lines, lines_chars, lower_chars, upper_chars};
use crate::smart::{SmartData, SmartReadMethod};
use crate::text::{
    all_digits, ascii_upper, chars_eq, eq_ignore_case, eq_ignore_case_chars, from_chars,
    is_alnum, is_alnum_char, keep_digits, keep_digits_chars, parse_u64, parse_u64_chars,
    push_decimal, push_str, split_str, split_str_chars, string_of, to_chars, trim, trim_chars,
    upper_char_exec, decimal, upper_char, find, occurs_at, lemma_find_none, lemma_find,
    lemma_find_at_result,
};
use vstd::prelude::*;

verus! {

// ---------------------------------------------------------------------------
// SMART attribute names
// ---------------------------------------------------------------------------

/// The display name of an ATA SMART attribute; `None` for ids without one.
pub open spec fn known_attribute_name(id: u8) -> Option<Seq<char>> {
    match id {
        1 => Some("Read Error Rate"@),
        2 => Some("Throughput Performance"@),
        3 => Some("Spin-Up Time"@),
        4 => Some("Start/Stop Count"@),
        5 => Some("Reallocated Sectors Count"@),
        7 => Some("Seek Error Rate"@),
        8 => Some("Seek Time Performance"@),
        9 => Some("Power-On Hours"@),
        10 => Some("Spin Retry Count"@),
        11 => Some("Calibration Retry Count"@),
        12 => Some("Power Cycle Count"@),
        170 => Some("Available Reserved Space"@),
        171 => Some("Program Fail Count"@),
        172 => Some("Erase Fail Count"@),
        173 => Some("Wear Leveling Count"@),
        174 => Some("Unexpected Power Loss Count"@),
        177 => Some("Wear Range Delta"@),
        179 => Some("Used Reserved Block Count Total"@),
        180 => Some("Unused Reserved Block Count Total"@),
        181 => Some("Program Fail Count Total"@),
        182 => Some("Erase Fail Count"@),
        183 => Some("Runtime Bad Block"@),
        184 => Some("End-to-End Error"@),
        187 => Some("Reported Uncorrectable Errors"@),
        188 => Some("Command Timeout"@),
        190 => Some("Airflow Temperature"@),
        191 => Some("G-Sense Error Rate"@),
        192 => Some("Power-Off Retract Count"@),
        193 => Some("Load/Unload Cycle Count"@),
        194 => Some("Temperature"@),
        195 => Some("Hardware ECC Recovered"@),
        196 => Some("Reallocation Event Count"@),
        197 => Some("Current Pending Sector Count"@),
        198 => Some("Offline Uncorrectable Sector Count"@),
        199 => Some("UltraDMA CRC Error Count"@),
        200 => Some("Write Error Rate"@),
        201 => Some("Soft Read Error Rate"@),
        202 => Some("Data Address Mark Errors"@),
        206 => Some("Flying Height"@),
        210 => Some("Vibration During Write"@),
        211 => Some("Vibration During Write Time"@),
        212 => Some("Shock During Write"@),
        220 => Some("Disk Shift"@),
        222 => Some("Loaded Hours"@),
        223 => Some("Load/Unload Retry Count"@),
        224 => Some("Load Friction"@),
        225 => Some("Load/Unload Cycle Count"@),
        226 => Some("Load-in Time"@),
        227 => Some("Torque Amplification Count"@),
        228 => Some("Power-Off Retract Cycle"@),
        230 => Some("Drive Life Protection Status"@),
        231 => Some("SSD Life Left"@),
        232 => Some("Available Reserved Space"@),
        233 => Some("Media Wearout Indicator"@),
        234 => Some("Average Erase Count"@),
        235 => Some("Good Block Count"@),
        241 => Some("Total LBAs Written"@),
        242 => Some("Total LBAs Read"@),
        243 => Some("Total LBAs Written Expanded"@),
        244 => Some("Total LBAs Read Expanded"@),
        245 => Some("NAND Writes (1GiB)"@),
        246 => Some("Total NAND Writes"@),
        247 => Some("Host Program NAND Pages Count"@),
        248 => Some("FTL Program NAND Pages Count"@),
        249 => Some("NAND Writes (1GiB)"@),
        250 => Some("Read Error Retry Rate"@),
        251 => Some("Minimum Spares Remaining"@),
        252 => Some("Newly Added Bad Flash Block"@),
        254 => Some("Free Fall Protection"@),
        _ => None,
    }
}

/// The name shown for an attribute: its known name, else `Attribute <id>`.
pub open spec fn smart_attribute_name(id: u8) -> Seq<char> {
    match known_attribute_name(id) {
        Some(n) => n,
        None => "Attribute "@ + decimal(id as nat),
    }
}

fn known_attribute_name_str(id: u8) -> (r: Option<&'static str>)
    ensures
        match r {
            Some(s) => known_attribute_name(id) == Some(s@),
            None => known_attribute_name(id) is None,
        },
{
    match id {
        1 => Some("Read Error Rate"),
        2 => Some("Throughput Performance"),
        3 => Some("Spin-Up Time"),
        4 => Some("Start/Stop Count"),
        5 => Some("Reallocated Sectors Count"),
        7 => Some("Seek Error Rate"),
        8 => Some("Seek Time Performance"),
        9 => Some("Power-On Hours"),
        10 => Some("Spin Retry Count"),
        11 => Some("Calibration Retry Count"),
        12 => Some("Power Cycle Count"),
        170 => Some("Available Reserved Space"),
        171 => Some("Program Fail Count"),
        172 => Some("Erase Fail Count"),
        173 => Some("Wear Leveling Count"),
        174 => Some("Unexpected Power Loss Count"),
        177 => Some("Wear Range Delta"),
        179 => Some("Used Reserved Block Count Total"),
        180 => Some("Unused Reserved Block Count Total"),
        181 => Some("Program Fail Count Total"),
        182 => Some("Erase Fail Count"),
        183 => Some("Runtime Bad Block"),
        184 => Some("End-to-End Error"),
        187 => Some("Reported Uncorrectable Errors"),
        188 => Some("Command Timeout"),
        190 => Some("Airflow Temperature"),
        191 => Some("G-Sense Error Rate"),
        192 => Some("Power-Off Retract Count"),
        193 => Some("Load/Unload Cycle Count"),
        194 => Some("Temperature"),
        195 => Some("Hardware ECC Recovered"),
        196 => Some("Reallocation Event Count"),
        197 => Some("Current Pending Sector Count"),
        198 => Some("Offline Uncorrectable Sector Count"),
        199 => Some("UltraDMA CRC Error Count"),
        200 => Some("Write Error Rate"),
        201 => Some("Soft Read Error Rate"),
        202 => Some("Data Address Mark Errors"),
        206 => Some("Flying Height"),
        210 => Some("Vibration During Write"),
        211 => Some("Vibration During Write Time"),
        212 => Some("Shock During Write"),
        220 => Some("Disk Shift"),
        222 => Some("Loaded Hours"),
        223 => Some("Load/Unload Retry Count"),
        224 => Some("Load Friction"),
        225 => Some("Load/Unload Cycle Count"),
        226 => Some("Load-in Time"),
        227 => Some("Torque Amplification Count"),
        228 => Some("Power-Off Retract Cycle"),
        230 => Some("Drive Life Protection Status"),
        231 => Some("SSD Life Left"),
        232 => Some("Available Reserved Space"),
        233 => Some("Media Wearout Indicator"),
        234 => Some("Average Erase Count"),
        235 => Some("Good Block Count"),
        241 => Some("Total LBAs Written"),
        242 => Some("Total LBAs Read"),
        243 => Some("Total LBAs Written Expanded"),
        244 => Some("Total LBAs Read Expanded"),
        245 => Some("NAND Writes (1GiB)"),
        246 => Some("Total NAND Writes"),
        247 => Some("Host Program NAND Pages Count"),
        248 => Some("FTL Program NAND Pages Count"),
        249 => Some("NAND Writes (1GiB)"),
        250 => Some("Read Error Retry Rate"),
        251 => Some("Minimum Spares Remaining"),
        252 => Some("Newly Added Bad Flash Block"),
        254 => Some("Free Fall Protection"),
        _ => None,
    }
}

/// The name shown for an ATA SMART attribute.
pub fn get_smart_attribute_name(id: u8) -> (r: String)
    ensures
        r@ == smart_attribute_name(id),
{
    match known_attribute_name_str(id) {
        Some(s) => string_of(s),
        None => {
            let mut r = string_of("Attribute ");
            push_decimal(&mut r, id as u64);
            r
        },
    }
}


// ---------------------------------------------------------------------------
// Data-source tags and notes
// ---------------------------------------------------------------------------

/// Whether one of the `+`-separated tags of `existing` equals `tag`,
/// ignoring ASCII case.
pub open spec fn has_tag(existing: Seq<char>, tag: Seq<char>) -> bool {
    exists|i: int|
        0 <= i < split_str(existing, "+"@).len() && eq_ignore_case(
            #[trigger] split_str(existing, "+"@)[i],
            tag,
        )
}

/// The data-source text with `add` joined in: `add` alone when nothing (or
/// `none`) was recorded, unchanged when `add` is already one of its tags,
/// else `<existing>+<add>`.
pub open spec fn spec_merge_smart_source(existing: Seq<char>, add: Seq<char>) -> Seq<char> {
    if existing.len() == 0 || eq_ignore_case(existing, "none"@) {
        add
    } else if has_tag(existing, add) {
        existing
    } else {
        existing + "+"@ + add
    }
}

/// Joins a data-source tag into the recorded ones.
pub fn merge_smart_source(existing: &str, add: &str) -> (r: String)
    ensures
        r@ == spec_merge_smart_source(existing@, add@),
{
    let e = to_chars(existing);
    let a = to_chars(add);
    let none = to_chars("none");
    if e.len() == 0 || eq_ignore_case_chars(e.as_slice(), none.as_slice()) {
        return string_of(add);
    }
    let plus = to_chars("+");
    proof {
        reveal_strlit("+");
    }
    let parts = split_str_chars(e.as_slice(), plus.as_slice());
    let mut i: usize = 0;
    while i < parts.len()
        invariant
            e@ == existing@,
            a@ == add@,
            !(existing@.len() == 0 || eq_ignore_case(existing@, "none"@)),
            i <= parts@.len(),
            parts@.len() == split_str(e@, "+"@).len(),
            forall|k: int| 0 <= k < parts@.len() ==> (#[trigger] parts@[k])@ == split_str(e@, "+"@)[k],
            forall|k: int| 0 <= k < i ==> !eq_ignore_case(split_str(e@, "+"@)[k], a@),
        decreases parts@.len() - i,
    {
        if eq_ignore_case_chars(parts[i].as_slice(), a.as_slice()) {
            proof {
                assert(eq_ignore_case(split_str(e@, "+"@)[i as int], a@));
                assert(has_tag(existing@, add@));
            }
            return string_of(existing);
        }
        i = i + 1;
    }
    let mut r = string_of(existing);
    push_str(&mut r, "+");
    push_str(&mut r, add);
    r
}

/// No `+` in the text.
pub open spec fn no_plus(a: Seq<char>) -> bool {
    forall|i: int| 0 <= i < a.len() ==> a[i] != '+'
}

proof fn lemma_plus_occurs(s: Seq<char>, j: int)
    ensures
        occurs_at(s, "+"@, j) <==> (0 <= j < s.len() && s[j] == '+'),
{
    reveal_strlit("+");
    if 0 <= j < s.len() && s[j] == '+' {
        assert(s.subrange(j, j + 1) =~= "+"@);
    }
    if occurs_at(s, "+"@, j) {
        assert(s.subrange(j, j + 1)[0] == s[j]);
    }
}

proof fn lemma_split_no_plus(a: Seq<char>)
    requires
        no_plus(a),
    ensures
        split_str(a, "+"@) == seq![a],
{
    reveal_strlit("+");
    assert forall|j: int| 0 <= j <= a.len() implies !occurs_at(a, "+"@, j) by {
        lemma_plus_occurs(a, j);
    }
    lemma_find_none(a, "+"@);
}

/// The last tag of `<e>+<a>` is `a` when `a` holds no `+`.
proof fn lemma_split_joined_last(e: Seq<char>, a: Seq<char>)
    requires
        no_plus(a),
    ensures
        split_str(e + "+"@ + a, "+"@).len() >= 1,
        split_str(e + "+"@ + a, "+"@).last() == a,
    decreases e.len(),
{
    reveal_strlit("+");
    let s = e + "+"@ + a;
    lemma_find_at_result(e, "+"@, 0);
    match find(e, "+"@) {
        Some(i) => {
            lemma_plus_occurs(e, i);
            assert forall|j: int| 0 <= j < i implies !occurs_at(s, "+"@, j) by {
                lemma_plus_occurs(e, j);
                lemma_plus_occurs(s, j);
            }
            lemma_plus_occurs(s, i);
            lemma_find(s, "+"@, i);
            let rest = e.skip(i + 1);
            assert(s.skip(i + 1) =~= rest + "+"@ + a);
            lemma_split_joined_last(rest, a);
            assert(split_str(s, "+"@) == seq![s.take(i)] + split_str(s.skip(i + 1), "+"@));
        },
        None => {
            assert forall|j: int| 0 <= j < e.len() implies !occurs_at(s, "+"@, j) by {
                lemma_plus_occurs(e, j);
                lemma_plus_occurs(s, j);
            }
            lemma_plus_occurs(s, e.len() as int);
            lemma_find(s, "+"@, e.len() as int);
            assert(s.skip(e.len() as int + 1) =~= a);
            lemma_split_no_plus(a);
            assert(split_str(s, "+"@) == seq![s.take(e.len() as int)] + split_str(a, "+"@));
        },
    }
}

/// Joining the same tag twice changes nothing: once `add` (a tag without
/// `+`) has been merged in, merging it again gives the same text.
pub proof fn lemma_merge_smart_source_idempotent(existing: Seq<char>, add: Seq<char>)
    requires
        no_plus(add),
    ensures
        spec_merge_smart_source(spec_merge_smart_source(existing, add), add)
            == spec_merge_smart_source(existing, add),
        has_tag(spec_merge_smart_source(existing, add), add) || spec_merge_smart_source(
            existing,
            add,
        ) == add,
{
    reveal_strlit("+");
    reveal_strlit("none");
    let r = spec_merge_smart_source(existing, add);
    if existing.len() == 0 || eq_ignore_case(existing, "none"@) {
        if !(add.len() == 0 || eq_ignore_case(add, "none"@)) {
            lemma_split_no_plus(add);
            assert(split_str(add, "+"@)[0] == add);
            assert(eq_ignore_case(add, add));
        }
    } else if has_tag(existing, add) {
    } else {
        lemma_split_joined_last(existing, add);
        let parts = split_str(r, "+"@);
        assert(parts[parts.len() - 1] == add);
        assert(eq_ignore_case(parts[parts.len() - 1], add));
        assert(has_tag(r, add));
        assert(r.len() > 0);
        assert(crate::text::ascii_lower(r).len() == r.len());
        if eq_ignore_case(r, "none"@) {
            let k = existing.len() as int;
            assert(r[k] == '+');
            assert(crate::text::ascii_lower(r)[k] == '+');
            assert(crate::text::ascii_lower("none"@)[k] != '+');
        }
    }
}

/// The notes with `note` added unless it is already there.
pub open spec fn spec_add_note(notes: Seq<Seq<char>>, note: Seq<char>) -> Seq<Seq<char>> {
    if notes.contains(note) {
        notes
    } else {
        notes.push(note)
    }
}

/// Adds a note unless the same note is already recorded.
pub fn add_note_unique(notes: &mut Vec<String>, note: &str)
    ensures
        strs(final(notes)@) == spec_add_note(strs(old(notes)@), note@),
{
    let n = to_chars(note);
    let mut i: usize = 0;
    while i < notes.len()
        invariant
            n@ == note@,
            i <= notes@.len(),
            notes@ == old(notes)@,
            forall|k: int| 0 <= k < i ==> notes@[k]@ != note@,
        decreases notes@.len() - i,
    {
        let c = to_chars(notes[i].as_str());
        assert(c@ == notes@[i as int]@);
        if chars_eq(c.as_slice(), n.as_slice()) {
            proof {
                assert(strs(notes@)[i as int] == note@);
            }
            return;
        }
        i = i + 1;
    }
    proof {
        assert forall|k: int| 0 <= k < strs(notes@).len() implies strs(notes@)[k] != note@ by {}
    }
    let ghost before = strs(notes@);
    notes.push(string_of(note));
    assert(strs(notes@) =~= before.push(note@));
}

/// Adding a note keeps the notes free of repeats.
pub proof fn lemma_add_note_no_repeats(notes: Seq<Seq<char>>, note: Seq<char>)
    requires
        notes.no_duplicates(),
    ensures
        spec_add_note(notes, note).no_duplicates(),
        spec_add_note(notes, note).contains(note),
        spec_add_note(spec_add_note(notes, note), note) == spec_add_note(notes, note),
{
    if !notes.contains(note) {
        let r = notes.push(note);
        assert(r[r.len() - 1] == note);
        assert forall|i: int, j: int| 0 <= i < r.len() && 0 <= j < r.len() && i != j implies r[i] != r[j] by {
            if i == r.len() - 1 && j < notes.len() {
                assert(notes[j] == r[j]);
            } else if j == r.len() - 1 && i < notes.len() {
                assert(notes[i] == r[i]);
            }
        }
    }
}

// ---------------------------------------------------------------------------
// Serial numbers, models and numbers in text
// ---------------------------------------------------------------------------

/// The ASCII letters and digits of `s`, upper-cased, in order.
pub open spec fn alnum_upper(s: Seq<char>) -> Seq<char>
    decreases s.len(),
{
    if s.len() == 0 {
        s
    } else if is_alnum(s.last()) {
        alnum_upper(s.drop_last()).push(upper_char(s.last()))
    } else {
        alnum_upper(s.drop_last())
    }
}

fn alnum_upper_chars(s: &[char]) -> (r: Vec<char>)
    ensures
        r@ == alnum_upper(s@),
{
    let mut r: Vec<char> = Vec::new();
    let mut i: usize = 0;
    while i < s.len()
        invariant
            i <= s@.len(),
            r@ == alnum_upper(s@.take(i as int)),
        decreases s@.len() - i,
    {
        assert(s@.take(i + 1).drop_last() =~= s@.take(i as int));
        if is_alnum_char(s[i]) {
            r.push(upper_char_exec(s[i]));
        }
        i = i + 1;
    }
    assert(s@.take(i as int) =~= s@);
    r
}

/// Serial numbers equal once reduced to upper-cased letters and digits,
/// both non-empty.
pub open spec fn spec_normalized_eq(a: Seq<char>, b: Seq<char>) -> bool {
    alnum_upper(a).len() > 0 && alnum_upper(b).len() > 0 && alnum_upper(a) == alnum_upper(b)
}

pub fn normalized_eq(a: &str, b: &str) -> (r: bool)
    ensures
        r == spec_normalized_eq(a@, b@),
{
    let x = to_chars(a);
    let y = to_chars(b);
    let na = alnum_upper_chars(x.as_slice());
    let nb = alnum_upper_chars(y.as_slice());
    na.len() > 0 && nb.len() > 0 && chars_eq(na.as_slice(), nb.as_slice())
}

/// Every character of `s` is one of `a` and `b`.
pub open spec fn all_of(s: Seq<char>, a: char, b: char) -> bool {
    forall|i: int| 0 <= i < s.len() ==> s[i] == a || s[i] == b
}

/// A serial number that some bridges report in place of the real one:
/// fewer than four letters and digits, or only `0`s and `D`s, or only `F`s.
pub open spec fn spec_is_masked_serial(serial: Seq<char>) -> bool {
    let n = alnum_upper(serial);
    n.len() < 4 || all_of(n, '0', 'D') || all_of(n, '0', '0') || all_of(n, 'F', 'F')
}

fn all_of_chars(s: &[char], a: char, b: char) -> (r: bool)
    ensures
        r == all_of(s@, a, b),
{
    let mut i: usize = 0;
    while i < s.len()
        invariant
            i <= s@.len(),
            forall|k: int| 0 <= k < i ==> s@[k] == a || s@[k] == b,
        decreases s@.len() - i,
    {
        if s[i] != a && s[i] != b {
            return false;
        }
        i = i + 1;
    }
    true
}

pub fn is_masked_serial(serial: &str) -> (r: bool)
    ensures
        r == spec_is_masked_serial(serial@),
{
    let s = to_chars(serial);
    let n = alnum_upper_chars(s.as_slice());
    n.len() < 4 || all_of_chars(n.as_slice(), '0', 'D') || all_of_chars(n.as_slice(), '0', '0')
        || all_of_chars(n.as_slice(), 'F', 'F')
}

/// A number in text: the trimmed text parsed whole, else its digits
/// parsed; none for blank text or no digits or an overflow.
pub open spec fn spec_parse_u64_string(s: Seq<char>) -> Option<u64> {
    let t = trim(s);
    if t.len() == 0 {
        None
    } else if parse_u64(t) is Some {
        parse_u64(t)
    } else if keep_digits(t).len() == 0 {
        None
    } else {
        parse_u64(keep_digits(t))
    }
}

pub fn parse_u64_string(s: &str) -> (r: Option<u64>)
    ensures
        r == spec_parse_u64_string(s@),
{
    let v = to_chars(s);
    let t = trim_chars(v.as_slice());
    if t.len() == 0 {
        return None;
    }
    match parse_u64_chars(t.as_slice()) {
        Some(n) => Some(n),
        None => {
            let d = keep_digits_chars(t.as_slice());
            if d.len() == 0 {
                None
            } else {
                parse_u64_chars(d.as_slice())
            }
        },
    }
}

/// A 128-bit counter clamped to 64 bits.
pub fn u128_to_u64(value: u128) -> (r: u64)
    ensures
        r == (if value <= u64::MAX as u128 {
            value as u64
        } else {
            u64::MAX
        }),
{
    if value <= u64::MAX as u128 {
        value as u64
    } else {
        u64::MAX
    }
}


// ---------------------------------------------------------------------------
// Hexadecimal and 128-bit decimal text
// ---------------------------------------------------------------------------

pub open spec fn hex_digit(d: nat) -> char {
    if d < 10 {
        (('0' as u32) + d) as char
    } else {
        (('A' as u32) + d - 10) as char
    }
}

/// Upper-case hexadecimal digits of `n` (`{:X}`).
pub open spec fn hex_upper(n: nat) -> Seq<char>
    decreases n,
{
    if n < 16 {
        seq![hex_digit(n)]
    } else {
        hex_upper(n / 16).push(hex_digit(n % 16))
    }
}

/// `s` with `c` put in front until it is `width` long.
pub open spec fn pad_left(s: Seq<char>, width: nat, c: char) -> Seq<char> {
    if s.len() >= width {
        s
    } else {
        Seq::new((width - s.len()) as nat, |i: int| c) + s
    }
}

fn hex_digit_char(d: u64) -> (c: char)
    requires
        d < 16,
    ensures
        c == hex_digit(d as nat),
{
    let v: u8 = if d < 10 {
        48 + d as u8
    } else {
        55 + d as u8
    };
    v as char
}

fn hex_upper_chars(n: u64) -> (r: Vec<char>)
    ensures
        r@ == hex_upper(n as nat),
    decreases n,
{
    let c = hex_digit_char(n % 16);
    if n < 16 {
        let mut v: Vec<char> = Vec::new();
        v.push(c);
        assert(v@ =~= hex_upper(n as nat));
        v
    } else {
        let mut v = hex_upper_chars(n / 16);
        v.push(c);
        v
    }
}

/// `0x` and the upper-case hexadecimal digits, padded with zeros to `width`.
pub fn hex_text(n: u64, width: usize) -> (r: String)
    ensures
        r@ == "0x"@ + pad_left(hex_upper(n as nat), width as nat, '0'),
{
    let d = hex_upper_chars(n);
    let mut r = string_of("0x");
    let mut k: usize = d.len();
    let ghost start = r@;
    let mut pad: Vec<char> = Vec::new();
    while k < width
        invariant
            d@.len() <= k <= width || (k == d@.len() && k >= width),
            pad@ == Seq::new((k - d@.len()) as nat, |i: int| '0'),
        decreases width - k,
    {
        pad.push('0');
        k = k + 1;
        assert(pad@ =~= Seq::new((k - d@.len()) as nat, |i: int| '0'));
    }
    crate::text::push_chars(&mut r, pad.as_slice());
    crate::text::push_chars(&mut r, d.as_slice());
    proof {
        if d@.len() >= width {
            assert(pad@ =~= Seq::<char>::empty());
            assert(r@ =~= "0x"@ + hex_upper(n as nat));
        } else {
            assert(k == width);
            assert(r@ =~= "0x"@ + pad_left(hex_upper(n as nat), width as nat, '0'));
        }
    }
    r
}

fn decimal_u128_chars(n: u128) -> (r: Vec<char>)
    ensures
        r@ == decimal(n as nat),
    decreases n,
{
    let d: u8 = (n % 10) as u8;
    let c: char = (48u8 + d) as char;
    if n < 10 {
        let mut v: Vec<char> = Vec::new();
        v.push(c);
        assert(v@ =~= decimal(n as nat));
        v
    } else {
        let mut v = decimal_u128_chars(n / 10);
        v.push(c);
        v
    }
}

// ---------------------------------------------------------------------------
// What a disk's diagnostics hold
// ---------------------------------------------------------------------------

/// One SMART attribute as the front end shows it.
#[derive(Debug, Clone)]
pub struct SmartAttribute {
    pub id: u32,
    pub name: String,
    pub current: Option<u32>,
    pub worst: Option<u32>,
    pub threshold: Option<u32>,
    pub raw: Option<u64>,
    pub raw_hex: String,
}

/// The diagnostics of one disk that the merging rules read and write (the
/// temperature and the wear percentage, which are fractional, and the
/// free-form reliability map are kept beside it by the caller).
#[derive(Debug, Clone)]
pub struct DiskDiagnostics {
    pub id: String,
    pub disk_number: u32,
    pub model: String,
    pub friendly_name: String,
    pub serial_number: String,
    pub firmware_version: String,
    pub interface_type: String,
    pub transport_type: String,
    pub is_usb: bool,
    pub bus_type: String,
    pub unique_id: String,
    pub media_type: String,
    pub size_bytes: u64,
    pub is_system: bool,
    pub health_status: String,
    pub smart_supported: bool,
    pub smart_enabled: bool,
    pub smart_data_source: String,
    pub ata_smart_available: bool,
    pub reliability_available: bool,
    pub power_on_hours: Option<u64>,
    pub power_cycle_count: Option<u64>,
    pub read_errors_total: Option<u64>,
    pub write_errors_total: Option<u64>,
    pub host_reads_total: Option<u64>,
    pub host_writes_total: Option<u64>,
    pub smart_attributes: Vec<SmartAttribute>,
    pub notes: Vec<String>,
    pub pnp_device_id: String,
    pub usb_vendor_id: String,
}

/// A value of the reliability map.
#[derive(Debug, Clone)]
pub enum RelValue {
    Unsigned(u64),
    Text(String),
    Signed(Vec<i32>),
}

/// `Some(v)` kept, else the fallback.
pub open spec fn or_else<T>(o: Option<T>, v: T) -> T {
    match o {
        Some(x) => x,
        None => v,
    }
}

/// A 128-bit counter clamped to 64 bits.
pub open spec fn clamp64(v: u128) -> u64 {
    if v <= u64::MAX as u128 {
        v as u64
    } else {
        u64::MAX
    }
}

/// The fields that identify the disk and that the NVMe readers leave alone.
pub open spec fn same_identity(a: DiskDiagnostics, b: DiskDiagnostics) -> bool {
    &&& a.id@ == b.id@
    &&& a.disk_number == b.disk_number
    &&& a.friendly_name@ == b.friendly_name@
    &&& a.is_usb == b.is_usb
    &&& a.bus_type@ == b.bus_type@
    &&& a.unique_id@ == b.unique_id@
    &&& a.size_bytes == b.size_bytes
    &&& a.is_system == b.is_system
    &&& a.health_status@ == b.health_status@
    &&& a.reliability_available == b.reliability_available
    &&& a.pnp_device_id@ == b.pnp_device_id@
    &&& a.usb_vendor_id@ == b.usb_vendor_id@
}

/// The counters a native read may fill.
pub open spec fn same_counters(a: DiskDiagnostics, b: DiskDiagnostics) -> bool {
    &&& a.power_on_hours == b.power_on_hours
    &&& a.power_cycle_count == b.power_cycle_count
    &&& a.read_errors_total == b.read_errors_total
    &&& a.write_errors_total == b.write_errors_total
    &&& a.host_reads_total == b.host_reads_total
    &&& a.host_writes_total == b.host_writes_total
}

/// The descriptive and SMART state a native NVMe health log rewrites.
pub open spec fn same_smart_state(a: DiskDiagnostics, b: DiskDiagnostics) -> bool {
    &&& a.transport_type@ == b.transport_type@
    &&& a.interface_type@ == b.interface_type@
    &&& a.media_type@ == b.media_type@
    &&& a.smart_supported == b.smart_supported
    &&& a.smart_enabled == b.smart_enabled
    &&& a.smart_data_source@ == b.smart_data_source@
    &&& a.ata_smart_available == b.ata_smart_available
    &&& a.smart_attributes@ == b.smart_attributes@
    &&& a.notes@ == b.notes@
}

/// The NVMe health-log results of `apply_native_nvme_data` on `old`.
pub open spec fn nvme_data_applied(old: DiskDiagnostics, new: DiskDiagnostics, nvme: NVMeSmartData) -> bool {
    &&& new.transport_type@ == "NVMe"@
    &&& new.interface_type@ == "NVMExpress"@
    &&& new.media_type@ == "SSD"@
    &&& new.power_on_hours == Some(or_else(old.power_on_hours, clamp64(nvme.power_on_hours)))
    &&& new.power_cycle_count == Some(or_else(old.power_cycle_count, clamp64(nvme.power_cycles)))
    &&& new.host_reads_total == Some(or_else(
        old.host_reads_total,
        nvme_host_total(nvme.data_units_read, nvme.host_read_commands),
    ))
    &&& new.host_writes_total == Some(or_else(
        old.host_writes_total,
        nvme_host_total(nvme.data_units_written, nvme.host_write_commands),
    ))
    &&& new.read_errors_total == Some(or_else(old.read_errors_total, clamp64(nvme.media_errors)))
    &&& new.write_errors_total == Some(or_else(old.write_errors_total, clamp64(nvme.num_err_log_entries)))
    &&& new.smart_supported
    &&& new.smart_enabled
    &&& new.smart_data_source@ == spec_merge_smart_source(old.smart_data_source@, "NVME_NATIVE_IOCTL"@)
    &&& new.ata_smart_available == old.ata_smart_available
    &&& new.smart_attributes@ == old.smart_attributes@
}

/// The temperature and wear hints of an NVMe health log.
pub open spec fn nvme_hints_of(hints: NvmeFloatHints, nvme: NVMeSmartData) -> bool {
    &&& hints.temperature_c == (if nvme.temperature > -1000 {
        Some(nvme.temperature)
    } else {
        None::<i32>
    })
    &&& hints.percentage_used == (if nvme.percentage_used > 100 {
        100
    } else {
        nvme.percentage_used
    })
}

/// The model after the identify data (when read) filled a blank one.
pub open spec fn identified_model(cur: Seq<char>, id: Option<NVMeIdentifyInfo>) -> Seq<char> {
    match id {
        Some(i) => if trim(cur).len() == 0 && i.model@.len() > 0 {
            i.model@
        } else {
            cur
        },
        None => cur,
    }
}

/// The serial after the identify data filled a blank or masked one.
pub open spec fn identified_serial(cur: Seq<char>, id: Option<NVMeIdentifyInfo>) -> Seq<char> {
    match id {
        Some(i) => if (trim(cur).len() == 0 || spec_is_masked_serial(cur)) && i.serial_number@.len() > 0 {
            i.serial_number@
        } else {
            cur
        },
        None => cur,
    }
}

/// The firmware version after the identify data filled a blank one.
pub open spec fn identified_firmware(cur: Seq<char>, id: Option<NVMeIdentifyInfo>) -> Seq<char> {
    match id {
        Some(i) => if trim(cur).len() == 0 && i.firmware_version@.len() > 0 {
            i.firmware_version@
        } else {
            cur
        },
        None => cur,
    }
}

/// The host read (or write) total an NVMe log gives: data units when any
/// were counted, else commands.
pub open spec fn nvme_host_total(units: u128, commands: u128) -> u64 {
    if clamp64(units) > 0 {
        clamp64(units)
    } else {
        clamp64(commands)
    }
}

/// What the NVMe health log gives the fractional fields: the temperature
/// when the reading is valid, and the wear percentage (0..100).
pub struct NvmeFloatHints {
    pub temperature_c: Option<i32>,
    pub percentage_used: u8,
}

/// Fills the diagnostics from an NVMe health log read natively: the disk is
/// NVMe (SSD), counters missing so far are taken from the log, and SMART is
/// marked supported and enabled.
pub fn apply_native_nvme_data(diag: &mut DiskDiagnostics, nvme: &NVMeSmartData) -> (hints: NvmeFloatHints)
    ensures
        same_identity(*old(diag), *final(diag)),
        final(diag).model@ == old(diag).model@,
        final(diag).serial_number@ == old(diag).serial_number@,
        final(diag).firmware_version@ == old(diag).firmware_version@,
        final(diag).ata_smart_available == old(diag).ata_smart_available,
        final(diag).smart_attributes@ == old(diag).smart_attributes@,
        final(diag).notes@ == old(diag).notes@,
        final(diag).transport_type@ == "NVMe"@,
        final(diag).interface_type@ == "NVMExpress"@,
        final(diag).media_type@ == "SSD"@,
        final(diag).power_on_hours == Some(or_else(old(diag).power_on_hours, clamp64(nvme.power_on_hours))),
        final(diag).power_cycle_count == Some(or_else(old(diag).power_cycle_count, clamp64(nvme.power_cycles))),
        final(diag).host_reads_total == Some(or_else(
            old(diag).host_reads_total,
            nvme_host_total(nvme.data_units_read, nvme.host_read_commands),
        )),
        final(diag).host_writes_total == Some(or_else(
            old(diag).host_writes_total,
            nvme_host_total(nvme.data_units_written, nvme.host_write_commands),
        )),
        final(diag).read_errors_total == Some(or_else(old(diag).read_errors_total, clamp64(nvme.media_errors))),
        final(diag).write_errors_total == Some(or_else(
            old(diag).write_errors_total,
            clamp64(nvme.num_err_log_entries),
        )),
        final(diag).smart_supported,
        final(diag).smart_enabled,
        final(diag).smart_data_source@ == spec_merge_smart_source(
            old(diag).smart_data_source@,
            "NVME_NATIVE_IOCTL"@,
        ),
        hints.temperature_c == (if nvme.temperature > -1000 {
            Some(nvme.temperature)
        } else {
            None::<i32>
        }),
        hints.percentage_used == (if nvme.percentage_used > 100 {
            100
        } else {
            nvme.percentage_used
        }),
{
    diag.transport_type = string_of("NVMe");
    diag.interface_type = string_of("NVMExpress");
    diag.media_type = string_of("SSD");
    if diag.power_on_hours.is_none() {
        diag.power_on_hours = Some(u128_to_u64(nvme.power_on_hours));
    }
    if diag.power_cycle_count.is_none() {
        diag.power_cycle_count = Some(u128_to_u64(nvme.power_cycles));
    }
    if diag.host_reads_total.is_none() {
        let units = u128_to_u64(nvme.data_units_read);
        let cmds = u128_to_u64(nvme.host_read_commands);
        diag.host_reads_total = Some(if units > 0 { units } else { cmds });
    }
    if diag.host_writes_total.is_none() {
        let units = u128_to_u64(nvme.data_units_written);
        let cmds = u128_to_u64(nvme.host_write_commands);
        diag.host_writes_total = Some(if units > 0 { units } else { cmds });
    }
    if diag.read_errors_total.is_none() {
        diag.read_errors_total = Some(u128_to_u64(nvme.media_errors));
    }
    if diag.write_errors_total.is_none() {
        diag.write_errors_total = Some(u128_to_u64(nvme.num_err_log_entries));
    }
    diag.smart_supported = true;
    diag.smart_enabled = true;
    diag.smart_data_source = merge_smart_source(diag.smart_data_source.as_str(), "NVME_NATIVE_IOCTL");
    NvmeFloatHints {
        temperature_c: if nvme.temperature > -1000 {
            Some(nvme.temperature)
        } else {
            None
        },
        percentage_used: if nvme.percentage_used > 100 {
            100
        } else {
            nvme.percentage_used
        },
    }
}

/// A 128-bit counter as the reliability map holds it: a number when it fits
/// in 64 bits, else its decimal text.
pub open spec fn is_counter_value(v: RelValue, n: u128) -> bool {
    if n <= u64::MAX as u128 {
        v == RelValue::Unsigned(n as u64)
    } else {
        v matches RelValue::Text(t) && t@ == decimal(n as nat)
    }
}

fn counter_value(n: u128) -> (v: RelValue)
    ensures
        is_counter_value(v, n),
{
    if n <= u64::MAX as u128 {
        RelValue::Unsigned(n as u64)
    } else {
        let d = decimal_u128_chars(n);
        RelValue::Text(from_chars(d.as_slice()))
    }
}

/// The keys of the reliability entries an NVMe health log contributes, in order.
pub open spec fn nvme_reliability_keys() -> Seq<Seq<char>> {
    seq![
        "NvmeIoctl.CriticalWarning"@,
        "NvmeIoctl.AvailableSpare"@,
        "NvmeIoctl.AvailableSpareThreshold"@,
        "NvmeIoctl.PercentageUsed"@,
        "NvmeIoctl.DataUnitsRead"@,
        "NvmeIoctl.DataUnitsWritten"@,
        "NvmeIoctl.HostReadCommands"@,
        "NvmeIoctl.HostWriteCommands"@,
        "NvmeIoctl.ControllerBusyTime"@,
        "NvmeIoctl.PowerCycles"@,
        "NvmeIoctl.PowerOnHours"@,
        "NvmeIoctl.UnsafeShutdowns"@,
        "NvmeIoctl.MediaErrors"@,
        "NvmeIoctl.ErrorLogEntries"@,
        "NvmeIoctl.WarningTempTime"@,
        "NvmeIoctl.CriticalTempTime"@,
        "NvmeIoctl.TemperatureSensors"@,
    ]
}

/// The reliability entries of an NVMe health log, in order; each is added
/// to the map only when its key is not there yet.
pub fn nvme_reliability_entries(nvme: &NVMeSmartData) -> (r: Vec<(String, RelValue)>)
    ensures
        r@.len() == 17,
        forall|i: int| 0 <= i < 17 ==> (#[trigger] r@[i]).0@ == nvme_reliability_keys()[i],
        r@[0].1 == RelValue::Unsigned(nvme.critical_warning as u64),
        r@[1].1 == RelValue::Unsigned(nvme.available_spare as u64),
        r@[2].1 == RelValue::Unsigned(nvme.available_spare_threshold as u64),
        r@[3].1 == RelValue::Unsigned(nvme.percentage_used as u64),
        is_counter_value(r@[4].1, nvme.data_units_read),
        is_counter_value(r@[5].1, nvme.data_units_written),
        is_counter_value(r@[6].1, nvme.host_read_commands),
        is_counter_value(r@[7].1, nvme.host_write_commands),
        is_counter_value(r@[8].1, nvme.controller_busy_time),
        is_counter_value(r@[9].1, nvme.power_cycles),
        is_counter_value(r@[10].1, nvme.power_on_hours),
        is_counter_value(r@[11].1, nvme.unsafe_shutdowns),
        is_counter_value(r@[12].1, nvme.media_errors),
        is_counter_value(r@[13].1, nvme.num_err_log_entries),
        r@[14].1 == RelValue::Unsigned(nvme.warning_temp_time as u64),
        r@[15].1 == RelValue::Unsigned(nvme.critical_temp_time as u64),
        r@[16].1 matches RelValue::Signed(v) && v@ == nvme.temp_sensors@,
{
    let mut r: Vec<(String, RelValue)> = Vec::new();
    r.push((string_of("NvmeIoctl.CriticalWarning"), RelValue::Unsigned(nvme.critical_warning as u64)));
    r.push((string_of("NvmeIoctl.AvailableSpare"), RelValue::Unsigned(nvme.available_spare as u64)));
    r.push((string_of("NvmeIoctl.AvailableSpareThreshold"), RelValue::Unsigned(nvme.available_spare_threshold as u64)));
    r.push((string_of("NvmeIoctl.PercentageUsed"), RelValue::Unsigned(nvme.percentage_used as u64)));
    r.push((string_of("NvmeIoctl.DataUnitsRead"), counter_value(nvme.data_units_read)));
    r.push((string_of("NvmeIoctl.DataUnitsWritten"), counter_value(nvme.data_units_written)));
    r.push((string_of("NvmeIoctl.HostReadCommands"), counter_value(nvme.host_read_commands)));
    r.push((string_of("NvmeIoctl.HostWriteCommands"), counter_value(nvme.host_write_commands)));
    r.push((string_of("NvmeIoctl.ControllerBusyTime"), counter_value(nvme.controller_busy_time)));
    r.push((string_of("NvmeIoctl.PowerCycles"), counter_value(nvme.power_cycles)));
    r.push((string_of("NvmeIoctl.PowerOnHours"), counter_value(nvme.power_on_hours)));
    r.push((string_of("NvmeIoctl.UnsafeShutdowns"), counter_value(nvme.unsafe_shutdowns)));
    r.push((string_of("NvmeIoctl.MediaErrors"), counter_value(nvme.media_errors)));
    r.push((string_of("NvmeIoctl.ErrorLogEntries"), counter_value(nvme.num_err_log_entries)));
    r.push((string_of("NvmeIoctl.WarningTempTime"), RelValue::Unsigned(nvme.warning_temp_time as u64)));
    r.push((string_of("NvmeIoctl.CriticalTempTime"), RelValue::Unsigned(nvme.critical_temp_time as u64)));
    let mut sensors: Vec<i32> = Vec::new();
    let mut i: usize = 0;
    while i < 8
        invariant
            i <= 8,
            sensors@ == nvme.temp_sensors@.take(i as int),
        decreases 8 - i,
    {
        sensors.push(nvme.temp_sensors[i]);
        i = i + 1;
        assert(sensors@ =~= nvme.temp_sensors@.take(i as int));
    }
    assert(nvme.temp_sensors@.take(8) =~= nvme.temp_sensors@);
    r.push((string_of("NvmeIoctl.TemperatureSensors"), RelValue::Signed(sensors)));
    assert(forall|i: int| 0 <= i < 17 ==> (#[trigger] r@[i]).0@ == nvme_reliability_keys()[i]);
    r
}

/// Fills missing model, serial (or a masked one) and firmware from the
/// NVMe identify data.
pub fn apply_nvme_identify(diag: &mut DiskDiagnostics, id: &NVMeIdentifyInfo)
    ensures
        same_identity(*old(diag), *final(diag)),
        final(diag).model@ == (if trim(old(diag).model@).len() == 0 && id.model@.len() > 0 {
            id.model@
        } else {
            old(diag).model@
        }),
        final(diag).serial_number@ == (if (trim(old(diag).serial_number@).len() == 0
            || spec_is_masked_serial(old(diag).serial_number@)) && id.serial_number@.len() > 0 {
            id.serial_number@
        } else {
            old(diag).serial_number@
        }),
        final(diag).firmware_version@ == (if trim(old(diag).firmware_version@).len() == 0
            && id.firmware_version@.len() > 0 {
            id.firmware_version@
        } else {
            old(diag).firmware_version@
        }),
        final(diag).transport_type@ == old(diag).transport_type@,
        final(diag).interface_type@ == old(diag).interface_type@,
        final(diag).media_type@ == old(diag).media_type@,
        final(diag).smart_data_source@ == old(diag).smart_data_source@,
        final(diag).smart_attributes@ == old(diag).smart_attributes@,
        final(diag).notes@ == old(diag).notes@,
        same_counters(*old(diag), *final(diag)),
        same_smart_state(*old(diag), *final(diag)),
{
    let m = crate::text::trim_str(diag.model.as_str());
    if m.len() == 0 && id.model.unicode_len() > 0 {
        diag.model = id.model.clone();
    }
    let sn = crate::text::trim_str(diag.serial_number.as_str());
    if (sn.len() == 0 || is_masked_serial(diag.serial_number.as_str())) && id.serial_number.unicode_len() > 0 {
        diag.serial_number = id.serial_number.clone();
    }
    let fw = crate::text::trim_str(diag.firmware_version.as_str());
    if fw.len() == 0 && id.firmware_version.unicode_len() > 0 {
        diag.firmware_version = id.firmware_version.clone();
    }
}

// ---------------------------------------------------------------------------
// Natively read ATA SMART data
// ---------------------------------------------------------------------------

/// The data-source tag and the note of a native ATA read.
pub open spec fn ata_source_tag(m: SmartReadMethod) -> Seq<char> {
    match m {
        SmartReadMethod::AtaPassThrough => "ATA_NATIVE_IOCTL"@,
        SmartReadMethod::PhysicalDrive => "ATA_NATIVE_DFP"@,
        SmartReadMethod::SatBridge => "ATA_NATIVE_SAT"@,
    }
}

pub open spec fn ata_source_note(m: SmartReadMethod) -> Seq<char> {
    match m {
        SmartReadMethod::AtaPassThrough => "ATA SMART data read directly via Windows IOCTL (native API)."@,
        SmartReadMethod::PhysicalDrive => "ATA SMART data read via legacy SMART DFP command path."@,
        SmartReadMethod::SatBridge => "ATA SMART data read via SAT bridge fallback (SCSI pass-through)."@,
    }
}

/// The note left when a device returned no threshold table.
pub open spec fn no_threshold_note() -> Seq<char> {
    "SMART threshold table was not returned by device/bridge; threshold values are unavailable."@
}

/// The attribute as shown, from a natively read one.
pub open spec fn is_shown_native_attribute(
    a: SmartAttribute,
    n: crate::smart::SmartAttribute,
    thresholds: bool,
) -> bool {
    &&& a.id == n.id as u32
    &&& a.name@ == smart_attribute_name(n.id)
    &&& a.current == Some(n.current as u32)
    &&& a.worst == Some(n.worst as u32)
    &&& a.threshold == (if thresholds {
        Some(n.threshold as u32)
    } else {
        None::<u32>
    })
    &&& a.raw == Some(n.raw)
    &&& a.raw_hex@ == "0x"@ + pad_left(hex_upper(n.raw as nat), 12, '0')
}

fn shown_native_attributes(data: &SmartData) -> (r: Vec<SmartAttribute>)
    ensures
        r@.len() == data.attributes@.len(),
        forall|i: int| 0 <= i < r@.len() ==> is_shown_native_attribute(
            #[trigger] r@[i],
            data.attributes@[i],
            data.thresholds_available,
        ),
{
    let mut r: Vec<SmartAttribute> = Vec::new();
    let mut i: usize = 0;
    while i < data.attributes.len()
        invariant
            i <= data.attributes@.len(),
            r@.len() == i,
            forall|k: int| 0 <= k < i ==> is_shown_native_attribute(
                #[trigger] r@[k],
                data.attributes@[k],
                data.thresholds_available,
            ),
        decreases data.attributes@.len() - i,
    {
        let a = &data.attributes[i];
        r.push(
            SmartAttribute {
                id: a.id as u32,
                name: get_smart_attribute_name(a.id),
                current: Some(a.current as u32),
                worst: Some(a.worst as u32),
                threshold: if data.thresholds_available {
                    Some(a.threshold as u32)
                } else {
                    None
                },
                raw: Some(a.raw),
                raw_hex: hex_text(a.raw, 12),
            },
        );
        i = i + 1;
    }
    r
}

/// Takes in natively read ATA SMART data: missing hours and cycle counts
/// are filled; the attribute list is replaced when the native one is
/// non-empty and at least as long, and then ATA SMART is marked available,
/// the source tag joined in and the read path noted.
pub fn apply_native_ata_data(diag: &mut DiskDiagnostics, data: &SmartData)
    ensures
        same_identity(*old(diag), *final(diag)),
        final(diag).model@ == old(diag).model@,
        final(diag).serial_number@ == old(diag).serial_number@,
        final(diag).power_on_hours == (match old(diag).power_on_hours {
            Some(h) => Some(h),
            None => data.power_on_hours,
        }),
        final(diag).power_cycle_count == (match old(diag).power_cycle_count {
            Some(h) => Some(h),
            None => data.power_cycle_count,
        }),
        final(diag).host_reads_total == old(diag).host_reads_total,
        final(diag).host_writes_total == old(diag).host_writes_total,
        final(diag).read_errors_total == old(diag).read_errors_total,
        final(diag).write_errors_total == old(diag).write_errors_total,
        final(diag).firmware_version@ == old(diag).firmware_version@,
        final(diag).transport_type@ == old(diag).transport_type@,
        final(diag).interface_type@ == old(diag).interface_type@,
        final(diag).media_type@ == old(diag).media_type@,
        final(diag).smart_enabled == old(diag).smart_enabled,
        ({
            let replace = data.attributes@.len() > 0 && data.attributes@.len()
                >= old(diag).smart_attributes@.len();
            &&& replace ==> {
                &&& final(diag).smart_attributes@.len() == data.attributes@.len()
                &&& forall|i: int| 0 <= i < data.attributes@.len() ==> is_shown_native_attribute(
                    #[trigger] final(diag).smart_attributes@[i],
                    data.attributes@[i],
                    data.thresholds_available,
                )
                &&& final(diag).ata_smart_available
                &&& final(diag).smart_supported
                &&& final(diag).smart_data_source@ == spec_merge_smart_source(
                    old(diag).smart_data_source@,
                    ata_source_tag(data.read_method),
                )
                &&& strs(final(diag).notes@) == (if data.thresholds_available {
                    spec_add_note(strs(old(diag).notes@), ata_source_note(data.read_method))
                } else {
                    spec_add_note(
                        spec_add_note(strs(old(diag).notes@), ata_source_note(data.read_method)),
                        no_threshold_note(),
                    )
                })
            }
            &&& !replace ==> {
                &&& final(diag).smart_attributes@ == old(diag).smart_attributes@
                &&& final(diag).ata_smart_available == old(diag).ata_smart_available
                &&& final(diag).smart_supported == old(diag).smart_supported
                &&& final(diag).smart_data_source@ == old(diag).smart_data_source@
                &&& final(diag).notes@ == old(diag).notes@
            }
        }),
{
    if diag.power_on_hours.is_none() {
        diag.power_on_hours = data.power_on_hours;
    }
    if diag.power_cycle_count.is_none() {
        diag.power_cycle_count = data.power_cycle_count;
    }
    let attrs = shown_native_attributes(data);
    if attrs.len() > 0 && attrs.len() >= diag.smart_attributes.len() {
        diag.smart_attributes = attrs;
        diag.ata_smart_available = true;
        diag.smart_supported = true;
        let (code, note) = match data.read_method {
            SmartReadMethod::AtaPassThrough => (
                "ATA_NATIVE_IOCTL",
                "ATA SMART data read directly via Windows IOCTL (native API).",
            ),
            SmartReadMethod::PhysicalDrive => (
                "ATA_NATIVE_DFP",
                "ATA SMART data read via legacy SMART DFP command path.",
            ),
            SmartReadMethod::SatBridge => (
                "ATA_NATIVE_SAT",
                "ATA SMART data read via SAT bridge fallback (SCSI pass-through).",
            ),
        };
        diag.smart_data_source = merge_smart_source(diag.smart_data_source.as_str(), code);
        add_note_unique(&mut diag.notes, note);
        if !data.thresholds_available {
            add_note_unique(
                &mut diag.notes,
                "SMART threshold table was not returned by device/bridge; threshold values are unavailable.",
            );
        }
    }
}


// ---------------------------------------------------------------------------
// Which disks look like NVMe
// ---------------------------------------------------------------------------

/// The text searched for NVMe markers: transport, interface, bus, model and
/// PnP id, space-separated, upper-cased.
pub open spec fn nvme_haystack(d: DiskDiagnostics) -> Seq<char> {
    ascii_upper(
        d.transport_type@ + " "@ + d.interface_type@ + " "@ + d.bus_type@ + " "@ + d.model@ + " "@
            + d.pnp_device_id@,
    )
}

pub open spec fn spec_is_nvme_diag(d: DiskDiagnostics) -> bool {
    contains(nvme_haystack(d), "NVME"@) || contains(nvme_haystack(d), "NVMEXPRESS"@) || contains(
        nvme_haystack(d),
        "OPTANE"@,
    )
}

/// Whether the disk's descriptions mention NVMe (or Optane).
pub fn is_nvme_diag(diag: &DiskDiagnostics) -> (r: bool)
    ensures
        r == spec_is_nvme_diag(*diag),
{
    let mut h = diag.transport_type.clone();
    push_str(&mut h, " ");
    push_str(&mut h, diag.interface_type.as_str());
    push_str(&mut h, " ");
    push_str(&mut h, diag.bus_type.as_str());
    push_str(&mut h, " ");
    push_str(&mut h, diag.model.as_str());
    push_str(&mut h, " ");
    push_str(&mut h, diag.pnp_device_id.as_str());
    let c = to_chars(h.as_str());
    let up = upper_chars(c.as_slice());
    let a = to_chars("NVME");
    let b = to_chars("NVMEXPRESS");
    let o = to_chars("OPTANE");
    contains_chars(up.as_slice(), a.as_slice()) || contains_chars(up.as_slice(), b.as_slice())
        || contains_chars(up.as_slice(), o.as_slice())
}

/// The next native reader to try for a disk.
#[derive(Debug, Clone, Copy, PartialEq, Eq, Structural)]
pub enum NativeProbe {
    Nvme,
    Ata,
    Finished,
}

/// The order of the native readers: NVMe first for disks that look like
/// NVMe (and nothing more when it works), then ATA, then NVMe once more for
/// other disks whose ATA read failed.
pub fn next_native_probe(looks_nvme: bool, first_nvme: Option<bool>, ata: Option<bool>) -> (r: NativeProbe)
    ensures
        looks_nvme && first_nvme is None ==> r == NativeProbe::Nvme,
        looks_nvme && first_nvme == Some(true) ==> r == NativeProbe::Finished,
        (!looks_nvme || first_nvme == Some(false)) && ata is None ==> (looks_nvme ==> first_nvme is Some) ==> r == NativeProbe::Ata,
        (!looks_nvme || first_nvme == Some(false)) && ata is Some ==> (r == if !looks_nvme && ata == Some(false) && first_nvme is None {
            NativeProbe::Nvme
        } else {
            NativeProbe::Finished
        }),
{
    if looks_nvme {
        match first_nvme {
            None => return NativeProbe::Nvme,
            Some(true) => return NativeProbe::Finished,
            Some(false) => {},
        }
    }
    match ata {
        None => NativeProbe::Ata,
        Some(ok) => if !looks_nvme && !ok && first_nvme.is_none() {
            NativeProbe::Nvme
        } else {
            NativeProbe::Finished
        },
    }
}

// ---------------------------------------------------------------------------
// smartctl: scanning, probing plan, picking the answer
// ---------------------------------------------------------------------------

/// A device that `smartctl --scan` lists.
#[derive(Debug, Clone)]
pub struct SmartctlScanEntry {
    pub name: String,
    pub device_type: Option<String>,
    pub info_name: String,
}

/// The view of an optional string.
pub open spec fn opt_view(o: Option<String>) -> Option<Seq<char>> {
    match o {
        Some(s) => Some(s@),
        None => None,
    }
}

/// A scan entry from a JSON device's `name`, `info_name` and `type`: names
/// and info trimmed, a blank type dropped; none for a blank name.
pub fn scan_entry_from_json(name: Option<&str>, info_name: Option<&str>, device_type: Option<&str>) -> (r: Option<SmartctlScanEntry>)
    ensures
        ({
            let n = match name {
                Some(x) => trim(x@),
                None => Seq::<char>::empty(),
            };
            &&& (n.len() == 0 <==> r is None)
            &&& r matches Some(e) ==> {
                &&& e.name@ == n
                &&& e.info_name@ == match info_name {
                    Some(x) => trim(x@),
                    None => Seq::<char>::empty(),
                }
                &&& opt_view(e.device_type) == match device_type {
                    Some(x) => if trim(x@).len() > 0 {
                        Some(trim(x@))
                    } else {
                        None::<Seq<char>>
                    },
                    None => None::<Seq<char>>,
                }
            }
        }),
{
    let n = match name {
        Some(x) => crate::text::trim_str(x),
        None => Vec::new(),
    };
    if n.len() == 0 {
        return None;
    }
    let info = match info_name {
        Some(x) => crate::text::trim_str(x),
        None => Vec::new(),
    };
    let dt = match device_type {
        Some(x) => {
            let t = crate::text::trim_str(x);
            if t.len() > 0 {
                Some(from_chars(t.as_slice()))
            } else {
                None
            }
        },
        None => None,
    };
    Some(SmartctlScanEntry { name: from_chars(n.as_slice()), device_type: dt, info_name: from_chars(info.as_slice()) })
}

/// What `Regex::new(pattern)` then `captures(text)` gives for the named
/// groups, in the order of `names`: `None` when the pattern does not
/// compile or does not match, else each group's text where it took part.
pub uninterp spec fn regex_named_groups(
    pattern: Seq<char>,
    names: Seq<Seq<char>>,
    text: Seq<char>,
) -> Option<Seq<Option<Seq<char>>>>;

/// `regex::Regex::new(pattern)`, then `captures(text)` and `name(..)` for
/// each of `names`. What the pattern matches is only named here; the
/// result has one entry per name.
#[verifier::external_body]
fn regex_named_captures(pattern: &str, names: &Vec<String>, text: &str) -> (r: Option<
    Vec<Option<String>>,
>)
    ensures
        match r {
            None => regex_named_groups(pattern@, strs(names@), text@) is None,
            Some(v) => regex_named_groups(pattern@, strs(names@), text@) == Some(
                v@.map_values(|o: Option<String>| opt_view(o)),
            ) && v@.len() == names@.len(),
        },
{
    let re = regex::Regex::new(pattern).ok()?;
    let caps = re.captures(text)?;
    Some(names.iter().map(|n| caps.name(n).map(|m| m.as_str().to_string())).collect())
}

/// The pattern of a `smartctl --scan` line: device, optional `-d type`,
/// optional `# info`.
pub open spec fn scan_line_pattern() -> Seq<char> {
    "(?i)^\\s*(?P<name>\\S+)(?:\\s+-d\\s+(?P<dtype>[^\\s#]+))?(?:\\s+#\\s*(?P<info>.*))?$"@
}

pub open spec fn scan_group_names() -> Seq<Seq<char>> {
    seq!["name"@, "dtype"@, "info"@]
}

pub open spec fn trim_or_empty(o: Option<Seq<char>>) -> Seq<char> {
    match o {
        Some(x) => trim(x),
        None => Seq::<char>::empty(),
    }
}

/// The entry one trimmed scan line gives: a device path (starting with
/// `/`), its type where given, and its info text.
pub open spec fn scan_line_entry(line: Seq<char>) -> Option<(Seq<char>, Option<Seq<char>>, Seq<char>)> {
    if line.len() == 0 || line[0] == '#' {
        None
    } else {
        match regex_named_groups(scan_line_pattern(), scan_group_names(), line) {
            None => None,
            Some(g) => {
                let name = trim_or_empty(g[0]);
                let dtype = trim_or_empty(g[1]);
                if name.len() == 0 || name[0] != '/' {
                    None
                } else {
                    Some(
                        (
                            name,
                            if g[1] is Some && dtype.len() > 0 {
                                Some(dtype)
                            } else {
                                None
                            },
                            trim_or_empty(g[2]),
                        ),
                    )
                }
            },
        }
    }
}

/// The entries of `smartctl --scan` text output, line by line.
pub open spec fn scan_text_entries(ls: Seq<Seq<char>>) -> Seq<(Seq<char>, Option<Seq<char>>, Seq<char>)>
    decreases ls.len(),
{
    if ls.len() == 0 {
        Seq::empty()
    } else {
        let p = scan_text_entries(ls.drop_last());
        match scan_line_entry(trim(ls.last())) {
            Some(e) => p.push(e),
            None => p,
        }
    }
}

pub open spec fn entry_triple(e: SmartctlScanEntry) -> (Seq<char>, Option<Seq<char>>, Seq<char>) {
    (e.name@, opt_view(e.device_type), e.info_name@)
}

fn opt_trimmed(o: &Option<String>) -> (r: Vec<char>)
    ensures
        r@ == trim_or_empty(opt_view(*o)),
{
    match o {
        Some(x) => crate::text::trim_str(x.as_str()),
        None => Vec::new(),
    }
}

fn scan_line_entry_exec(line: &Vec<char>, pattern: &String, names: &Vec<String>) -> (r: Option<SmartctlScanEntry>)
    requires
        pattern@ == scan_line_pattern(),
        strs(names@) == scan_group_names(),
    ensures
        match r {
            Some(e) => scan_line_entry(line@) == Some(entry_triple(e)),
            None => scan_line_entry(line@) is None,
        },
{
    if line.len() == 0 || line[0] == '#' {
        return None;
    }
    let text = from_chars(line.as_slice());
    let caps = match regex_named_captures(pattern.as_str(), names, text.as_str()) {
        None => {
            return None;
        },
        Some(c) => c,
    };
    assert(strs(names@).len() == names@.len());
    assert(scan_group_names().len() == 3);
    assert(caps@.len() == 3);
    let ghost g = caps@.map_values(|o: Option<String>| opt_view(o));
    assert(g[0] == opt_view(caps@[0]) && g[1] == opt_view(caps@[1]) && g[2] == opt_view(caps@[2]));
    let name = opt_trimmed(&caps[0]);
    if name.len() == 0 || name[0] != '/' {
        return None;
    }
    let dt = opt_trimmed(&caps[1]);
    let device_type = if caps[1].is_some() && dt.len() > 0 {
        Some(from_chars(dt.as_slice()))
    } else {
        None
    };
    let info = opt_trimmed(&caps[2]);
    Some(SmartctlScanEntry { name: from_chars(name.as_slice()), device_type, info_name: from_chars(info.as_slice()) })
}

/// The entries of `smartctl --scan` text output.
pub fn parse_smartctl_scan_entries_text(output: &str) -> (r: Vec<SmartctlScanEntry>)
    ensures
        r@.map_values(|e: SmartctlScanEntry| entry_triple(e)) == scan_text_entries(lines(output@)),
{
    let pattern = string_of(
        "(?i)^\\s*(?P<name>\\S+)(?:\\s+-d\\s+(?P<dtype>[^\\s#]+))?(?:\\s+#\\s*(?P<info>.*))?$",
    );
    let mut names: Vec<String> = Vec::new();
    names.push(string_of("name"));
    names.push(string_of("dtype"));
    names.push(string_of("info"));
    assert(strs(names@) =~= scan_group_names());
    let ls = lines_chars(to_chars(output).as_slice());
    let ghost all = lines(output@);
    let mut out: Vec<SmartctlScanEntry> = Vec::new();
    let mut i: usize = 0;
    while i < ls.len()
        invariant
            pattern@ == scan_line_pattern(),
            strs(names@) == scan_group_names(),
            all == lines(output@),
            ls@.len() == all.len(),
            forall|k: int| 0 <= k < ls@.len() ==> (#[trigger] ls@[k])@ == all[k],
            i <= ls@.len(),
            out@.map_values(|e: SmartctlScanEntry| entry_triple(e)) == scan_text_entries(all.take(i as int)),
        decreases ls@.len() - i,
    {
        assert(all.take(i + 1).drop_last() =~= all.take(i as int));
        assert(all.take(i + 1).last() == all[i as int]);
        let t = crate::text::trim_chars(ls[i].as_slice());
        let ghost before = out@;
        match scan_line_entry_exec(&t, &pattern, &names) {
            Some(e) => {
                out.push(e);
                assert(out@.map_values(|e: SmartctlScanEntry| entry_triple(e)) =~= before.map_values(
                    |e: SmartctlScanEntry| entry_triple(e),
                ).push(entry_triple(out@.last())));
            },
            None => {},
        }
        i = i + 1;
    }
    assert(all.take(i as int) =~= all);
    out
}

/// The key by which scan entries are told apart: the lower-cased name and
/// type joined by U+001F.
pub open spec fn scan_key(e: SmartctlScanEntry) -> Seq<char> {
    ascii_lower(e.name@) + seq!['\u{1F}'] + ascii_lower(
        match e.device_type {
            Some(t) => t@,
            None => Seq::<char>::empty(),
        },
    )
}

fn scan_key_chars(e: &SmartctlScanEntry) -> (r: Vec<char>)
    ensures
        r@ == scan_key(*e),
{
    let n = to_chars(e.name.as_str());
    let mut r = lower_chars(n.as_slice());
    r.push('\u{1F}');
    let t = match &e.device_type {
        Some(t) => to_chars(t.as_str()),
        None => Vec::new(),
    };
    let lt = lower_chars(t.as_slice());
    let mut i: usize = 0;
    let ghost start = r@;
    while i < lt.len()
        invariant
            i <= lt@.len(),
            r@ == start + lt@.take(i as int),
        decreases lt@.len() - i,
    {
        r.push(lt[i]);
        i = i + 1;
        assert(r@ =~= start + lt@.take(i as int));
    }
    assert(lt@.take(i as int) =~= lt@);
    r
}

/// The entries with a key not seen before, in order (the first of each key).
pub open spec fn dedup_scan(es: Seq<SmartctlScanEntry>) -> Seq<SmartctlScanEntry>
    decreases es.len(),
{
    if es.len() == 0 {
        es
    } else {
        let prev = dedup_scan(es.drop_last());
        if exists|i: int| 0 <= i < prev.len() && scan_key(#[trigger] prev[i]) == scan_key(es.last()) {
            prev
        } else {
            prev.push(es.last())
        }
    }
}

/// Drops scan entries whose name and type (ignoring case) were listed before.
pub fn dedup_scan_entries(entries: Vec<SmartctlScanEntry>) -> (r: Vec<SmartctlScanEntry>)
    ensures
        r@ == dedup_scan(entries@),
{
    let mut out: Vec<SmartctlScanEntry> = Vec::new();
    let mut keys: Vec<Vec<char>> = Vec::new();
    let mut i: usize = 0;
    while i < entries.len()
        invariant
            i <= entries@.len(),
            out@ == dedup_scan(entries@.take(i as int)),
            keys@.len() == out@.len(),
            forall|k: int| 0 <= k < keys@.len() ==> (#[trigger] keys@[k])@ == scan_key(out@[k]),
        decreases entries@.len() - i,
    {
        assert(entries@.take(i + 1).drop_last() =~= entries@.take(i as int));
        let key = scan_key_chars(&entries[i]);
        let mut j: usize = 0;
        let mut seen = false;
        while j < keys.len()
            invariant
                j <= keys@.len(),
                keys@.len() == out@.len(),
                forall|k: int| 0 <= k < keys@.len() ==> (#[trigger] keys@[k])@ == scan_key(out@[k]),
                key@ == scan_key(entries@[i as int]),
                seen ==> exists|k: int| 0 <= k < out@.len() && scan_key(#[trigger] out@[k]) == key@,
                !seen ==> forall|k: int| 0 <= k < j ==> scan_key(#[trigger] out@[k]) != key@,
            decreases keys@.len() - j,
        {
            if !seen && chars_eq(keys[j].as_slice(), key.as_slice()) {
                seen = true;
            }
            j = j + 1;
        }
        proof {
            assert(entries@.take(i + 1).last() == entries@[i as int]);
        }
        if !seen {
            out.push(entries[i].clone_entry());
            keys.push(key);
        }
        i = i + 1;
    }
    assert(entries@.take(i as int) =~= entries@);
    out
}

/// Every scan entry kept was scanned, no two kept entries share a name and
/// type (ignoring case), and every scanned name and type is kept once.
pub proof fn law_scan_entries_once(es: Seq<SmartctlScanEntry>)
    ensures
        forall|i: int, j: int|
            0 <= i < j < dedup_scan(es).len() ==> scan_key(#[trigger] dedup_scan(es)[i]) != scan_key(
                #[trigger] dedup_scan(es)[j],
            ),
        forall|j: int| 0 <= j < dedup_scan(es).len() ==> es.contains(#[trigger] dedup_scan(es)[j]),
        forall|i: int|
            #![trigger es[i]]
            0 <= i < es.len() ==> exists|j: int|
                0 <= j < dedup_scan(es).len() && scan_key(#[trigger] dedup_scan(es)[j]) == scan_key(
                    es[i],
                ),
    decreases es.len(),
{
    if es.len() > 0 {
        let p = es.drop_last();
        law_scan_entries_once(p);
        let d = dedup_scan(p);
        let x = es.last();
        assert forall|j: int| 0 <= j < d.len() implies es.contains(#[trigger] d[j]) by {
            let k = choose|k: int| 0 <= k < p.len() && p[k] == d[j];
            assert(es[k] == p[k]);
        }
        if exists|i: int| 0 <= i < d.len() && scan_key(#[trigger] d[i]) == scan_key(x) {
            assert(dedup_scan(es) == d);
            assert forall|i: int| #![trigger es[i]] 0 <= i < es.len() implies exists|j: int|
                0 <= j < dedup_scan(es).len() && scan_key(#[trigger] dedup_scan(es)[j]) == scan_key(
                    es[i],
                ) by {
                if i < es.len() - 1 {
                    assert(es[i] == p[i]);
                }
            }
        } else {
            let n = d.push(x);
            assert(dedup_scan(es) == n);
            assert forall|i: int, j: int| 0 <= i < j < n.len() implies scan_key(#[trigger] n[i])
                != scan_key(#[trigger] n[j]) by {
                assert(n[i] == d[i]);
                if j < d.len() {
                    assert(n[j] == d[j]);
                }
            }
            assert forall|j: int| 0 <= j < n.len() implies es.contains(#[trigger] n[j]) by {
                if j < d.len() {
                    assert(n[j] == d[j]);
                } else {
                    assert(es[es.len() - 1] == x);
                }
            }
            assert forall|i: int| #![trigger es[i]] 0 <= i < es.len() implies exists|j: int|
                0 <= j < n.len() && scan_key(#[trigger] n[j]) == scan_key(es[i]) by {
                if i < es.len() - 1 {
                    assert(es[i] == p[i]);
                    let j = choose|j: int| 0 <= j < d.len() && scan_key(#[trigger] d[j]) == scan_key(
                        p[i],
                    );
                    assert(n[j] == d[j]);
                } else {
                    assert(n[d.len() as int] == x);
                }
            }
        }
    }
}

/// A device of `smartctl --scan -j`, with the string members it carries.
pub struct JsonScanDevice {
    pub name: Option<String>,
    pub info_name: Option<String>,
    pub device_type: Option<String>,
}

pub open spec fn json_device_entry(d: JsonScanDevice) -> Option<(Seq<char>, Option<Seq<char>>, Seq<char>)> {
    let n = trim_or_empty(opt_view(d.name));
    if n.len() == 0 {
        None
    } else {
        Some(
            (
                n,
                match opt_view(d.device_type) {
                    Some(x) => if trim(x).len() > 0 {
                        Some(trim(x))
                    } else {
                        None
                    },
                    None => None,
                },
                trim_or_empty(opt_view(d.info_name)),
            ),
        )
    }
}

/// The entries of the JSON devices, skipping those without a name.
pub open spec fn json_entries(ds: Seq<JsonScanDevice>) -> Seq<(Seq<char>, Option<Seq<char>>, Seq<char>)>
    decreases ds.len(),
{
    if ds.len() == 0 {
        Seq::empty()
    } else {
        let p = json_entries(ds.drop_last());
        match json_device_entry(ds.last()) {
            Some(e) => p.push(e),
            None => p,
        }
    }
}

fn opt_str_ref(o: &Option<String>) -> (r: Option<&str>)
    ensures
        match r {
            Some(s) => opt_view(*o) == Some(s@),
            None => o is None,
        },
{
    match o {
        Some(s) => Some(s.as_str()),
        None => None,
    }
}

/// The entries of `smartctl --scan -j`.
pub fn parse_smartctl_scan_entries_json(devices: &Vec<JsonScanDevice>) -> (r: Vec<SmartctlScanEntry>)
    ensures
        r@.map_values(|e: SmartctlScanEntry| entry_triple(e)) == json_entries(devices@),
{
    let mut out: Vec<SmartctlScanEntry> = Vec::new();
    let mut i: usize = 0;
    while i < devices.len()
        invariant
            i <= devices@.len(),
            out@.map_values(|e: SmartctlScanEntry| entry_triple(e)) == json_entries(devices@.take(i as int)),
        decreases devices@.len() - i,
    {
        assert(devices@.take(i + 1).drop_last() =~= devices@.take(i as int));
        assert(devices@.take(i + 1).last() == devices@[i as int]);
        let d = &devices[i];
        let ghost before = out@;
        match scan_entry_from_json(opt_str_ref(&d.name), opt_str_ref(&d.info_name), opt_str_ref(&d.device_type)) {
            Some(e) => {
                out.push(e);
                assert(out@.map_values(|e: SmartctlScanEntry| entry_triple(e)) =~= before.map_values(
                    |e: SmartctlScanEntry| entry_triple(e),
                ).push(entry_triple(out@.last())));
            },
            None => {},
        }
        i = i + 1;
    }
    assert(devices@.take(i as int) =~= devices@);
    out
}

/// The scan entries of all scan runs together, repeats dropped; none when
/// no run listed a device.
pub fn smartctl_scan_entries(runs: Vec<Vec<SmartctlScanEntry>>) -> (r: Option<Vec<SmartctlScanEntry>>)
    ensures
        ({
            let all = runs@.map_values(|v: Vec<SmartctlScanEntry>| v@).flatten();
            &&& dedup_scan(all).len() == 0 ==> r is None
            &&& dedup_scan(all).len() > 0 ==> (r matches Some(v) && v@ == dedup_scan(all))
        }),
{
    let ghost rv = runs@.map_values(|v: Vec<SmartctlScanEntry>| v@);
    let mut all: Vec<SmartctlScanEntry> = Vec::new();
    let mut runs = runs;
    let mut i: usize = 0;
    let n = runs.len();
    while i < n
        invariant
            n == runs@.len(),
            rv == runs@.map_values(|v: Vec<SmartctlScanEntry>| v@),
            i <= n,
            all@ == rv.take(i as int).flatten(),
        decreases n - i,
    {
        let mut chunk: Vec<SmartctlScanEntry> = Vec::new();
        let src = &runs[i];
        let mut j: usize = 0;
        while j < src.len()
            invariant
                j <= src@.len(),
                chunk@ == src@.take(j as int),
            decreases src@.len() - j,
        {
            chunk.push(src[j].clone_entry());
            j = j + 1;
            assert(chunk@ =~= src@.take(j as int));
        }
        assert(src@.take(j as int) =~= src@);
        let ghost a = all@;
        all.append(&mut chunk);
        proof {
            assert(rv.take(i + 1).drop_last() =~= rv.take(i as int));
            assert(rv.take(i + 1).last() == rv[i as int]);
            rv.take(i as int).lemma_flatten_push(rv[i as int]);
            assert(rv.take(i + 1) =~= rv.take(i as int).push(rv[i as int]));
        }
        i = i + 1;
    }
    assert(rv.take(i as int) =~= rv);
    let d = dedup_scan_entries(all);
    if d.len() == 0 {
        None
    } else {
        Some(d)
    }
}

impl SmartctlScanEntry {
    /// A copy of the entry.
    pub fn clone_entry(&self) -> (r: Self)
        ensures
            r == *self,
    {
        SmartctlScanEntry {
            name: self.name.clone(),
            device_type: match &self.device_type {
                Some(t) => Some(t.clone()),
                None => None,
            },
            info_name: self.info_name.clone(),
        }
    }
}

/// Whether the scan entry names the disk: its name or info mentions
/// `pd<n>`, `physicaldrive<n>` or `disk<n>` (ignoring case).
pub open spec fn spec_entry_matches_disk(e: SmartctlScanEntry, n: u32) -> bool {
    let pd = "pd"@ + decimal(n as nat);
    let phy = "physicaldrive"@ + decimal(n as nat);
    let dk = "disk"@ + decimal(n as nat);
    let name = ascii_lower(e.name@);
    let info = ascii_lower(e.info_name@);
    contains(name, pd) || contains(name, phy) || contains(name, dk) || contains(info, pd)
        || contains(info, phy) || contains(info, dk)
}

fn key_with_number(prefix: &str, n: u32) -> (r: Vec<char>)
    ensures
        r@ == prefix@ + decimal(n as nat),
{
    let mut s = string_of(prefix);
    push_decimal(&mut s, n as u64);
    to_chars(s.as_str())
}

pub fn smartctl_entry_matches_disk(entry: &SmartctlScanEntry, disk_number: u32) -> (r: bool)
    ensures
        r == spec_entry_matches_disk(*entry, disk_number),
{
    let pd = key_with_number("pd", disk_number);
    let phy = key_with_number("physicaldrive", disk_number);
    let dk = key_with_number("disk", disk_number);
    let n = to_chars(entry.name.as_str());
    let i = to_chars(entry.info_name.as_str());
    let ln = lower_chars(n.as_slice());
    let li = lower_chars(i.as_slice());
    contains_chars(ln.as_slice(), pd.as_slice()) || contains_chars(ln.as_slice(), phy.as_slice())
        || contains_chars(ln.as_slice(), dk.as_slice()) || contains_chars(li.as_slice(), pd.as_slice())
        || contains_chars(li.as_slice(), phy.as_slice()) || contains_chars(li.as_slice(), dk.as_slice())
}


/// The arguments of one smartctl probe: `-x -j`, then `-d <type>` when a
/// non-blank type is given, then the device.
pub open spec fn attempt_args(device: Seq<char>, device_type: Option<Seq<char>>) -> Seq<Seq<char>> {
    seq!["-x"@, "-j"@] + (match device_type {
        Some(t) => if trim(t).len() > 0 {
            seq!["-d"@, trim(t)]
        } else {
            Seq::<Seq<char>>::empty()
        },
        None => Seq::<Seq<char>>::empty(),
    }) + seq![device]
}

/// The arguments joined by U+001F, by which probes are told apart.
pub open spec fn join_key(args: Seq<Seq<char>>) -> Seq<char>
    decreases args.len(),
{
    if args.len() == 0 {
        Seq::empty()
    } else if args.len() == 1 {
        args[0]
    } else {
        join_key(args.drop_last()) + seq!['\u{1F}'] + args.last()
    }
}

/// The probes with `args` appended unless one with the same key is there.
pub open spec fn push_attempt(attempts: Seq<Seq<Seq<char>>>, args: Seq<Seq<char>>) -> Seq<Seq<Seq<char>>> {
    if exists|i: int| 0 <= i < attempts.len() && join_key(#[trigger] attempts[i]) == join_key(args) {
        attempts
    } else {
        attempts.push(args)
    }
}

/// Probes for the candidates `(device, type)`, in order, without repeats.
pub open spec fn attempts_of(cands: Seq<(Seq<char>, Option<Seq<char>>)>) -> Seq<Seq<Seq<char>>>
    decreases cands.len(),
{
    if cands.len() == 0 {
        Seq::empty()
    } else {
        push_attempt(attempts_of(cands.drop_last()), attempt_args(cands.last().0, cands.last().1))
    }
}

/// `Some` of a literal.
pub open spec fn some_lit(s: Seq<char>) -> Option<Seq<char>> {
    Some(s)
}

/// The device types to probe `/dev/pd<n>` with, in order.
pub open spec fn device_type_candidates(d: DiskDiagnostics) -> Seq<Option<Seq<char>>> {
    let nvme = eq_ignore_case(d.transport_type@, "nvme"@) || eq_ignore_case(
        d.interface_type@,
        "nvmexpress"@,
    ) || eq_ignore_case(d.bus_type@, "nvme"@);
    let usb = d.is_usb;
    let vid = ascii_upper(trim(d.usb_vendor_id@));
    seq![None::<Seq<char>>] + (if usb {
        seq![some_lit("sat,auto"@), some_lit("sat"@), some_lit("sat,12"@), some_lit("sat,16"@), some_lit("scsi"@)]
    } else {
        Seq::empty()
    }) + (if nvme {
        seq![some_lit("nvme"@)] + (if usb {
            seq![
                some_lit("sntjmicron"@),
                some_lit("sntjmicron,0"@),
                some_lit("sntjmicron,1"@),
                some_lit("sntasmedia"@),
                some_lit("sntrealtek"@),
                some_lit("sntrealtek,0"@),
                some_lit("sntrealtek,1"@),
            ]
        } else {
            Seq::empty()
        })
    } else {
        (if usb {
            seq![some_lit("usbjmicron"@)]
        } else {
            Seq::empty()
        }) + seq![some_lit("sat"@), some_lit("scsi"@)]
    }) + (if vid == "152D"@ {
        seq![some_lit("usbjmicron"@), some_lit("sntjmicron"@), some_lit("sntjmicron,0"@), some_lit("sntjmicron,1"@)]
    } else if vid == "174C"@ {
        seq![some_lit("sntasmedia"@)]
    } else if vid == "0BDA"@ {
        seq![some_lit("sntrealtek"@), some_lit("sntrealtek,0"@), some_lit("sntrealtek,1"@)]
    } else if vid == "04B4"@ {
        seq![some_lit("usbcypress"@)]
    } else if vid == "067B"@ {
        seq![some_lit("usbprolific"@)]
    } else if vid == "04FC"@ {
        seq![some_lit("usbsunplus"@)]
    } else {
        Seq::empty()
    })
}

/// The scan entries that name the disk, as `(device, type)` candidates.
pub open spec fn scan_candidates(es: Seq<SmartctlScanEntry>, n: u32) -> Seq<(Seq<char>, Option<Seq<char>>)>
    decreases es.len(),
{
    if es.len() == 0 {
        Seq::empty()
    } else if spec_entry_matches_disk(es.last(), n) {
        scan_candidates(es.drop_last(), n).push((es.last().name@, opt_view(es.last().device_type)))
    } else {
        scan_candidates(es.drop_last(), n)
    }
}

/// All probe candidates of a disk: its own device with each type, then the
/// scan entries that name it.
pub open spec fn probe_candidates(d: DiskDiagnostics, es: Seq<SmartctlScanEntry>) -> Seq<(Seq<char>, Option<Seq<char>>)> {
    device_type_candidates(d).map_values(|t: Option<Seq<char>>| ("/dev/pd"@ + decimal(d.disk_number as nat), t))
        + scan_candidates(es, d.disk_number)
}

fn push_lit(v: &mut Vec<Option<String>>, s: &str)
    ensures
        final(v)@.len() == old(v)@.len() + 1,
        forall|i: int| 0 <= i < old(v)@.len() ==> final(v)@[i] == old(v)@[i],
        opt_view(final(v)@[old(v)@.len() as int]) == Some(s@),
{
    v.push(Some(string_of(s)));
}

/// The views of optional strings.
pub open spec fn opt_views(v: Seq<Option<String>>) -> Seq<Option<Seq<char>>> {
    v.map_values(|o: Option<String>| opt_view(o))
}

fn push_lits(v: &mut Vec<Option<String>>, lits: &[&str])
    ensures
        opt_views(final(v)@) == opt_views(old(v)@) + lits@.map_values(|s: &str| Some(s@)),
{
    let ghost start = opt_views(v@);
    let mut i: usize = 0;
    while i < lits.len()
        invariant
            i <= lits@.len(),
            opt_views(v@) == start + lits@.take(i as int).map_values(|s: &str| Some(s@)),
        decreases lits@.len() - i,
    {
        let ghost before = v@;
        push_lit(v, lits[i]);
        i = i + 1;
        assert(opt_views(v@) =~= opt_views(before) + seq![Some(lits@[i - 1]@)]);
        assert(lits@.take(i as int).map_values(|s: &str| Some(s@)) =~= lits@.take(i - 1).map_values(
            |s: &str| Some(s@),
        ) + seq![Some(lits@[i - 1]@)]);
    }
    assert(lits@.take(i as int) =~= lits@);
}

fn str_eq_lit(a: &[char], b: &str) -> (r: bool)
    ensures
        r == (a@ == b@),
{
    let c = to_chars(b);
    chars_eq(a, c.as_slice())
}

/// The device types to probe the disk's own device with.
pub fn smartctl_device_types(diag: &DiskDiagnostics) -> (r: Vec<Option<String>>)
    ensures
        opt_views(r@) == device_type_candidates(*diag),
{
    let t = to_chars(diag.transport_type.as_str());
    let f = to_chars(diag.interface_type.as_str());
    let b = to_chars(diag.bus_type.as_str());
    let nv = to_chars("nvme");
    let nvx = to_chars("nvmexpress");
    let nvme = eq_ignore_case_chars(t.as_slice(), nv.as_slice()) || eq_ignore_case_chars(
        f.as_slice(),
        nvx.as_slice(),
    ) || eq_ignore_case_chars(b.as_slice(), nv.as_slice());
    let usb = diag.is_usb;
    let vt = crate::text::trim_str(diag.usb_vendor_id.as_str());
    let vid = upper_chars(vt.as_slice());
    let mut v: Vec<Option<String>> = Vec::new();
    v.push(None);
    let ghost s0 = opt_views(v@);
    assert(s0 =~= seq![None::<Seq<char>>]);
    if usb {
        push_lits(&mut v, &["sat,auto", "sat", "sat,12", "sat,16", "scsi"]);
    }
    let ghost s1 = opt_views(v@);
    if nvme {
        push_lits(&mut v, &["nvme"]);
        if usb {
            push_lits(
                &mut v,
                &["sntjmicron", "sntjmicron,0", "sntjmicron,1", "sntasmedia", "sntrealtek", "sntrealtek,0", "sntrealtek,1"],
            );
        }
    } else {
        if usb {
            push_lits(&mut v, &["usbjmicron"]);
        }
        push_lits(&mut v, &["sat", "scsi"]);
    }
    let ghost s2 = opt_views(v@);
    if str_eq_lit(vid.as_slice(), "152D") {
        push_lits(&mut v, &["usbjmicron", "sntjmicron", "sntjmicron,0", "sntjmicron,1"]);
    } else if str_eq_lit(vid.as_slice(), "174C") {
        push_lits(&mut v, &["sntasmedia"]);
    } else if str_eq_lit(vid.as_slice(), "0BDA") {
        push_lits(&mut v, &["sntrealtek", "sntrealtek,0", "sntrealtek,1"]);
    } else if str_eq_lit(vid.as_slice(), "04B4") {
        push_lits(&mut v, &["usbcypress"]);
    } else if str_eq_lit(vid.as_slice(), "067B") {
        push_lits(&mut v, &["usbprolific"]);
    } else if str_eq_lit(vid.as_slice(), "04FC") {
        push_lits(&mut v, &["usbsunplus"]);
    }
    assert(opt_views(v@) =~= device_type_candidates(*diag));
    v
}


fn attempt_args_exec(device: &str, device_type: &Option<String>) -> (r: Vec<String>)
    ensures
        strs(r@) == attempt_args(device@, opt_view(*device_type)),
{
    let mut r: Vec<String> = Vec::new();
    r.push(string_of("-x"));
    r.push(string_of("-j"));
    let ghost s0 = strs(r@);
    match device_type {
        Some(t) => {
            let tt = crate::text::trim_str(t.as_str());
            if tt.len() > 0 {
                r.push(string_of("-d"));
                r.push(from_chars(tt.as_slice()));
            }
        },
        None => {},
    }
    r.push(string_of(device));
    assert(strs(r@) =~= attempt_args(device@, opt_view(*device_type)));
    r
}

fn join_key_chars(args: &Vec<String>) -> (r: Vec<char>)
    ensures
        r@ == join_key(strs(args@)),
{
    let mut r: Vec<char> = Vec::new();
    let mut i: usize = 0;
    while i < args.len()
        invariant
            i <= args@.len(),
            r@ == join_key(strs(args@).take(i as int)),
        decreases args@.len() - i,
    {
        let c = to_chars(args[i].as_str());
        if i > 0 {
            r.push('\u{1F}');
        }
        let ghost before = r@;
        let mut j: usize = 0;
        while j < c.len()
            invariant
                j <= c@.len(),
                r@ == before + c@.take(j as int),
            decreases c@.len() - j,
        {
            r.push(c[j]);
            j = j + 1;
            assert(r@ =~= before + c@.take(j as int));
        }
        assert(c@.take(j as int) =~= c@);
        proof {
            let t = strs(args@).take(i + 1);
            assert(t.drop_last() =~= strs(args@).take(i as int));
            assert(t.last() == args@[i as int]@);
            if i == 0 {
                assert(t.len() == 1);
                assert(r@ =~= join_key(t));
            }
        }
        i = i + 1;
    }
    assert(strs(args@).take(i as int) =~= strs(args@));
    r
}

/// The views of a list of argument lists.
pub open spec fn attempt_views(v: Seq<Vec<String>>) -> Seq<Seq<Seq<char>>> {
    v.map_values(|a: Vec<String>| strs(a@))
}

fn push_attempt_exec(attempts: &mut Vec<Vec<String>>, keys: &mut Vec<Vec<char>>, device: &str, device_type: &Option<String>)
    requires
        old(keys)@.len() == old(attempts)@.len(),
        forall|k: int| 0 <= k < old(keys)@.len() ==> (#[trigger] old(keys)@[k])@ == join_key(strs(old(attempts)@[k]@)),
    ensures
        final(keys)@.len() == final(attempts)@.len(),
        forall|k: int| 0 <= k < final(keys)@.len() ==> (#[trigger] final(keys)@[k])@ == join_key(strs(final(attempts)@[k]@)),
        attempt_views(final(attempts)@) == push_attempt(
            attempt_views(old(attempts)@),
            attempt_args(device@, opt_view(*device_type)),
        ),
{
    let args = attempt_args_exec(device, device_type);
    let key = join_key_chars(&args);
    let mut j: usize = 0;
    while j < keys.len()
        invariant
            j <= keys@.len(),
            keys@ == old(keys)@,
            attempts@ == old(attempts)@,
            keys@.len() == attempts@.len(),
            forall|k: int| 0 <= k < keys@.len() ==> (#[trigger] keys@[k])@ == join_key(strs(attempts@[k]@)),
            key@ == join_key(strs(args@)),
            strs(args@) == attempt_args(device@, opt_view(*device_type)),
            forall|k: int| 0 <= k < j ==> join_key(strs(attempts@[k]@)) != key@,
        decreases keys@.len() - j,
    {
        if chars_eq(keys[j].as_slice(), key.as_slice()) {
            proof {
                assert(join_key(attempt_views(attempts@)[j as int]) == join_key(strs(args@)));
            }
            return;
        }
        j = j + 1;
    }
    let ghost before = attempt_views(attempts@);
    proof {
        assert forall|i: int| 0 <= i < before.len() implies join_key(#[trigger] before[i]) != join_key(strs(args@)) by {
            assert(before[i] == strs(attempts@[i]@));
        }
    }
    attempts.push(args);
    keys.push(key);
    assert(attempt_views(attempts@) =~= before.push(strs(args@)));
}

/// The smartctl probes for a disk, in order and without repeats: its own
/// device `/dev/pd<n>` with each candidate type, then each scanned device
/// that names the disk.
pub fn smartctl_attempts(diag: &DiskDiagnostics, scan_entries: &Vec<SmartctlScanEntry>) -> (r: Vec<Vec<String>>)
    ensures
        attempt_views(r@) == attempts_of(probe_candidates(*diag, scan_entries@)),
{
    let mut device = string_of("/dev/pd");
    push_decimal(&mut device, diag.disk_number as u64);
    let types = smartctl_device_types(diag);
    let ghost cands = probe_candidates(*diag, scan_entries@);
    let ghost own = device_type_candidates(*diag).map_values(
        |t: Option<Seq<char>>| ("/dev/pd"@ + decimal(diag.disk_number as nat), t),
    );
    let mut attempts: Vec<Vec<String>> = Vec::new();
    let mut keys: Vec<Vec<char>> = Vec::new();
    let mut i: usize = 0;
    while i < types.len()
        invariant
            i <= types@.len(),
            opt_views(types@) == device_type_candidates(*diag),
            own == device_type_candidates(*diag).map_values(
                |t: Option<Seq<char>>| ("/dev/pd"@ + decimal(diag.disk_number as nat), t),
            ),
            device@ == "/dev/pd"@ + decimal(diag.disk_number as nat),
            keys@.len() == attempts@.len(),
            forall|k: int| 0 <= k < keys@.len() ==> (#[trigger] keys@[k])@ == join_key(strs(attempts@[k]@)),
            attempt_views(attempts@) == attempts_of(own.take(i as int)),
        decreases types@.len() - i,
    {
        proof {
            assert(own.take(i + 1).drop_last() =~= own.take(i as int));
            assert(opt_views(types@)[i as int] == opt_view(types@[i as int]));
        }
        push_attempt_exec(&mut attempts, &mut keys, device.as_str(), &types[i]);
        i = i + 1;
    }
    assert(own.take(i as int) =~= own);
    let ghost mid = attempts_of(own);
    let mut j: usize = 0;
    while j < scan_entries.len()
        invariant
            j <= scan_entries@.len(),
            keys@.len() == attempts@.len(),
            forall|k: int| 0 <= k < keys@.len() ==> (#[trigger] keys@[k])@ == join_key(strs(attempts@[k]@)),
            attempt_views(attempts@) == attempts_of(own + scan_candidates(scan_entries@.take(j as int), diag.disk_number)),
        decreases scan_entries@.len() - j,
    {
        let e = &scan_entries[j];
        proof {
            assert(scan_entries@.take(j + 1).drop_last() =~= scan_entries@.take(j as int));
            assert(own + scan_candidates(scan_entries@.take(j as int), diag.disk_number) =~= own
                + scan_candidates(scan_entries@.take(j as int), diag.disk_number));
        }
        if smartctl_entry_matches_disk(e, diag.disk_number) {
            push_attempt_exec(&mut attempts, &mut keys, e.name.as_str(), &e.device_type);
            proof {
                let prev = own + scan_candidates(scan_entries@.take(j as int), diag.disk_number);
                let next = own + scan_candidates(scan_entries@.take(j + 1), diag.disk_number);
                assert(next =~= prev.push((e.name@, opt_view(e.device_type))));
                assert(next.drop_last() =~= prev);
            }
        } else {
            proof {
                assert(own + scan_candidates(scan_entries@.take(j + 1), diag.disk_number) =~= own
                    + scan_candidates(scan_entries@.take(j as int), diag.disk_number));
            }
        }
        j = j + 1;
    }
    assert(scan_entries@.take(j as int) =~= scan_entries@);
    attempts
}


/// The fallback probes: every scanned device with its type, in order.
pub fn smartctl_fallback_attempts(scan_entries: &Vec<SmartctlScanEntry>) -> (r: Vec<Vec<String>>)
    ensures
        r@.len() == scan_entries@.len(),
        forall|i: int| 0 <= i < r@.len() ==> strs((#[trigger] r@[i])@) == attempt_args(
            scan_entries@[i].name@,
            opt_view(scan_entries@[i].device_type),
        ),
{
    let mut r: Vec<Vec<String>> = Vec::new();
    let mut i: usize = 0;
    while i < scan_entries.len()
        invariant
            i <= scan_entries@.len(),
            r@.len() == i,
            forall|k: int| 0 <= k < i ==> strs((#[trigger] r@[k])@) == attempt_args(
                scan_entries@[k].name@,
                opt_view(scan_entries@[k].device_type),
            ),
        decreases scan_entries@.len() - i,
    {
        r.push(attempt_args_exec(scan_entries[i].name.as_str(), &scan_entries[i].device_type));
        i = i + 1;
    }
    r
}

/// One row of smartctl's ATA attribute table, as plain values.
#[derive(Debug, Clone)]
pub struct SmartctlAttrItem {
    pub id: Option<u64>,
    pub name: Option<String>,
    pub value: Option<u64>,
    pub worst: Option<u64>,
    pub thresh: Option<u64>,
    pub raw: Option<u64>,
}

/// What the rules read of a smartctl JSON report. Texts are trimmed and
/// present only when non-blank; numbers are present when the report holds
/// one (or a text holding one) at that place.
#[derive(Debug, Clone)]
pub struct SmartctlPayload {
    pub has_smartctl: bool,
    pub has_model_name: bool,
    pub has_serial_number: bool,
    pub has_ata_table: bool,
    pub has_nvme_log: bool,
    pub has_temperature_current: bool,
    pub has_power_on_hours: bool,
    pub has_ata_smart_attributes: bool,
    pub device_name: Option<String>,
    pub device_type: Option<String>,
    pub protocol: Option<String>,
    pub model_name: Option<String>,
    pub serial_number: Option<String>,
    pub firmware_version: Option<String>,
    pub rotation_rate: Option<u64>,
    pub exit_status: Option<u64>,
    pub user_capacity: Option<u64>,
    pub power_on_hours: Option<u64>,
    pub power_cycle_count: Option<u64>,
    pub nvme_power_on_hours: Option<u64>,
    pub nvme_power_cycles: Option<u64>,
    pub nvme_host_reads: Option<u64>,
    pub nvme_data_units_read: Option<u64>,
    pub nvme_host_writes: Option<u64>,
    pub nvme_data_units_written: Option<u64>,
    pub nvme_media_errors: Option<u64>,
    pub nvme_num_err_log_entries: Option<u64>,
    pub smart_enabled: Option<bool>,
    pub smart_passed: Option<bool>,
    pub ata_table: Vec<SmartctlAttrItem>,
}

/// A report worth using: it comes from smartctl and says something about
/// the disk.
pub open spec fn spec_is_useful(p: SmartctlPayload) -> bool {
    p.has_smartctl && (p.has_model_name || p.has_serial_number || p.has_ata_table || p.has_nvme_log
        || p.has_temperature_current || p.has_power_on_hours)
}

pub fn is_useful_smartctl_payload(p: &SmartctlPayload) -> (r: bool)
    ensures
        r == spec_is_useful(*p),
{
    p.has_smartctl && (p.has_model_name || p.has_serial_number || p.has_ata_table || p.has_nvme_log
        || p.has_temperature_current || p.has_power_on_hours)
}

/// `s` with the empty text for none.
pub open spec fn or_empty(o: Option<String>) -> Seq<char> {
    match o {
        Some(s) => s@,
        None => Seq::empty(),
    }
}

/// |a - b|.
pub open spec fn abs_diff(a: u64, b: u64) -> int {
    if a >= b {
        a - b
    } else {
        b - a
    }
}

/// Whether a report found by scanning belongs to the disk: its device is
/// `/dev/pd<n>`; or the serials agree (the disk's being real); or the
/// models resemble each other and the capacity is within 5% (at least
/// 64 MiB) of the disk's size.
pub open spec fn spec_payload_matches(p: SmartctlPayload, d: DiskDiagnostics) -> bool {
    let pd = "/dev/pd"@ + decimal(d.disk_number as nat);
    let by_name = match p.device_name {
        Some(n) => contains(ascii_lower(n@), pd),
        None => false,
    };
    let ps = or_empty(p.serial_number);
    let ds = trim(d.serial_number@);
    let by_serial = ds.len() > 0 && !spec_is_masked_serial(ds) && ps.len() > 0 && spec_normalized_eq(ds, ps);
    let pm = or_empty(p.model_name);
    let dm = if trim(d.model@).len() == 0 {
        trim(d.friendly_name@)
    } else {
        trim(d.model@)
    };
    let model_like = pm.len() > 0 && dm.len() > 0 && (contains(ascii_upper(pm), ascii_upper(dm))
        || contains(ascii_upper(dm), ascii_upper(pm)));
    let by_size = model_like && match p.user_capacity {
        Some(cap) => d.size_bytes > 0 && abs_diff(cap, d.size_bytes) <= (if d.size_bytes / 20 > 67108864u64 {
            (d.size_bytes / 20) as int
        } else {
            67108864int
        }),
        None => false,
    };
    by_name || by_serial || by_size
}

pub fn payload_matches_diag(p: &SmartctlPayload, diag: &DiskDiagnostics) -> (r: bool)
    ensures
        r == spec_payload_matches(*p, *diag),
{
    let mut pd = string_of("/dev/pd");
    push_decimal(&mut pd, diag.disk_number as u64);
    let pdc = to_chars(pd.as_str());
    let by_name = match &p.device_name {
        Some(n) => {
            let c = to_chars(n.as_str());
            let l = lower_chars(c.as_slice());
            contains_chars(l.as_slice(), pdc.as_slice())
        },
        None => false,
    };
    if by_name {
        return true;
    }
    let ps: Vec<char> = match &p.serial_number {
        Some(x) => to_chars(x.as_str()),
        None => Vec::new(),
    };
    let ds = crate::text::trim_str(diag.serial_number.as_str());
    let ds_s = from_chars(ds.as_slice());
    let ps_s = from_chars(ps.as_slice());
    if ds.len() > 0 && !is_masked_serial(ds_s.as_str()) && ps.len() > 0 && normalized_eq(ds_s.as_str(), ps_s.as_str()) {
        return true;
    }
    let pm: Vec<char> = match &p.model_name {
        Some(x) => to_chars(x.as_str()),
        None => Vec::new(),
    };
    let m = crate::text::trim_str(diag.model.as_str());
    let dm = if m.len() == 0 {
        crate::text::trim_str(diag.friendly_name.as_str())
    } else {
        m
    };
    let upm = upper_chars(pm.as_slice());
    let udm = upper_chars(dm.as_slice());
    let model_like = pm.len() > 0 && dm.len() > 0 && (contains_chars(upm.as_slice(), udm.as_slice())
        || contains_chars(udm.as_slice(), upm.as_slice()));
    if model_like {
        if let Some(cap) = p.user_capacity {
            let size = diag.size_bytes;
            if size > 0 {
                let diff = if cap >= size {
                    cap - size
                } else {
                    size - cap
                };
                let tol = if size / 20 > 64 * 1024 * 1024 {
                    size / 20
                } else {
                    64 * 1024 * 1024
                };
                if diff <= tol {
                    return true;
                }
            }
        }
    }
    false
}

/// The first report that is worth using, among the answers to the probes.
pub open spec fn first_useful(rs: Seq<Option<SmartctlPayload>>) -> Option<int>
    decreases rs.len(),
{
    if rs.len() == 0 {
        None
    } else {
        match first_useful(rs.drop_last()) {
            Some(i) => Some(i),
            None => match rs.last() {
                Some(p) => if spec_is_useful(p) {
                    Some(rs.len() - 1)
                } else {
                    None
                },
                None => None,
            },
        }
    }
}

proof fn lemma_first_useful_prefix(rs: Seq<Option<SmartctlPayload>>, i: int)
    requires
        0 <= i < rs.len(),
        first_useful(rs.take(i)) is None,
    ensures
        first_useful(rs.take(i + 1)) == (match rs[i] {
            Some(p) => if spec_is_useful(p) {
                Some(i)
            } else {
                None::<int>
            },
            None => None::<int>,
        }),
{
    assert(rs.take(i + 1).drop_last() =~= rs.take(i));
}

/// The index of the report to use: the first useful answer.
pub fn pick_smartctl_payload(results: &Vec<Option<SmartctlPayload>>) -> (r: Option<usize>)
    ensures
        match r {
            Some(i) => first_useful(results@) == Some(i as int),
            None => first_useful(results@) is None,
        },
{
    let mut i: usize = 0;
    while i < results.len()
        invariant
            i <= results@.len(),
            first_useful(results@.take(i as int)) is None,
        decreases results@.len() - i,
    {
        proof {
            lemma_first_useful_prefix(results@, i as int);
        }
        let useful = match &results[i] {
            Some(p) => is_useful_smartctl_payload(p),
            None => false,
        };
        if useful {
            proof {
                lemma_first_useful_suffix(results@, i as int + 1, i as int);
            }
            return Some(i);
        }
        i = i + 1;
    }
    assert(results@.take(i as int) =~= results@);
    None
}

proof fn lemma_first_useful_suffix(rs: Seq<Option<SmartctlPayload>>, k: int, j: int)
    requires
        0 <= k <= rs.len(),
        first_useful(rs.take(k)) == Some(j),
    ensures
        first_useful(rs) == Some(j),
    decreases rs.len() - k,
{
    if k < rs.len() {
        let t = rs.take(k + 1);
        assert(t.drop_last() =~= rs.take(k));
        assert(t.len() > 0);
        assert(first_useful(t) == Some(j));
        lemma_first_useful_suffix(rs, k + 1, j);
    } else {
        assert(rs.take(k) =~= rs);
    }
}

// ---------------------------------------------------------------------------
// Attributes from smartctl
// ---------------------------------------------------------------------------

/// The attribute as shown, from a row of smartctl's table with an id.
pub open spec fn is_shown_smartctl_attribute(a: SmartAttribute, it: SmartctlAttrItem) -> bool {
    &&& it.id matches Some(id) && a.id == id as u32
    &&& a.name@ == match it.name {
        Some(n) => n@,
        None => "Attribute "@ + decimal(it.id.unwrap() as nat),
    }
    &&& a.current == (match it.value {
        Some(v) => Some(v as u32),
        None => None::<u32>,
    })
    &&& a.worst == (match it.worst {
        Some(v) => Some(v as u32),
        None => None::<u32>,
    })
    &&& a.threshold == (match it.thresh {
        Some(v) => Some(v as u32),
        None => None::<u32>,
    })
    &&& a.raw == it.raw
    &&& a.raw_hex@ == match it.raw {
        Some(v) => "0x"@ + hex_upper(v as nat),
        None => Seq::<char>::empty(),
    }
}

/// The rows that have an id, in order.
pub open spec fn rows_with_id(items: Seq<SmartctlAttrItem>) -> Seq<SmartctlAttrItem>
    decreases items.len(),
{
    if items.len() == 0 {
        items
    } else if items.last().id is Some {
        rows_with_id(items.drop_last()).push(items.last())
    } else {
        rows_with_id(items.drop_last())
    }
}

fn trunc32(v: Option<u64>) -> (r: Option<u32>)
    ensures
        r == (match v {
            Some(x) => Some(x as u32),
            None => None::<u32>,
        }),
{
    match v {
        Some(x) => Some(x as u32),
        None => None,
    }
}

/// The attributes of smartctl's ATA table: rows without an id are skipped;
/// a row without a name is called `Attribute <id>`.
pub fn parse_smartctl_ata_attributes(table: &Vec<SmartctlAttrItem>) -> (r: Vec<SmartAttribute>)
    ensures
        r@.len() == rows_with_id(table@).len(),
        forall|i: int| 0 <= i < r@.len() ==> is_shown_smartctl_attribute(
            #[trigger] r@[i],
            rows_with_id(table@)[i],
        ),
{
    let mut r: Vec<SmartAttribute> = Vec::new();
    let mut i: usize = 0;
    while i < table.len()
        invariant
            i <= table@.len(),
            r@.len() == rows_with_id(table@.take(i as int)).len(),
            forall|k: int| 0 <= k < r@.len() ==> is_shown_smartctl_attribute(
                #[trigger] r@[k],
                rows_with_id(table@.take(i as int))[k],
            ),
        decreases table@.len() - i,
    {
        assert(table@.take(i + 1).drop_last() =~= table@.take(i as int));
        let it = &table[i];
        if let Some(id) = it.id {
            let name = match &it.name {
                Some(n) => n.clone(),
                None => {
                    let mut s = string_of("Attribute ");
                    push_decimal(&mut s, id);
                    s
                },
            };
            let raw_hex = match it.raw {
                Some(v) => hex_text(v, 0),
                None => String::new(),
            };
            proof {
                match it.raw {
                    Some(v) => {
                        assert(pad_left(hex_upper(v as nat), 0, '0') == hex_upper(v as nat));
                    },
                    None => {},
                }
            }
            r.push(
                SmartAttribute {
                    id: id as u32,
                    name,
                    current: trunc32(it.value),
                    worst: trunc32(it.worst),
                    threshold: trunc32(it.thresh),
                    raw: it.raw,
                    raw_hex,
                },
            );
        }
        i = i + 1;
    }
    assert(table@.take(i as int) =~= table@);
    r
}

/// The raw value of the first attribute with the id, if it has one.
pub open spec fn attr_raw(attrs: Seq<SmartAttribute>, id: u32) -> Option<u64>
    decreases attrs.len(),
{
    if attrs.len() == 0 {
        None
    } else if attrs[0].id == id {
        attrs[0].raw
    } else {
        attr_raw(attrs.drop_first(), id)
    }
}

/// The current (normalized) value of the first attribute with the id.
pub open spec fn attr_current(attrs: Seq<SmartAttribute>, id: u32) -> Option<u32>
    decreases attrs.len(),
{
    if attrs.len() == 0 {
        None
    } else if attrs[0].id == id {
        attrs[0].current
    } else {
        attr_current(attrs.drop_first(), id)
    }
}

fn attr_lookup(attrs: &Vec<SmartAttribute>, id: u32) -> (r: Option<usize>)
    ensures
        match r {
            Some(i) => i < attrs@.len() && attrs@[i as int].id == id && attr_raw(attrs@, id)
                == attrs@[i as int].raw && attr_current(attrs@, id) == attrs@[i as int].current,
            None => attr_raw(attrs@, id) is None && attr_current(attrs@, id) is None,
        },
{
    let mut i: usize = 0;
    assert(attrs@.skip(0) =~= attrs@);
    while i < attrs.len()
        invariant
            i <= attrs@.len(),
            attr_raw(attrs@, id) == attr_raw(attrs@.skip(i as int), id),
            attr_current(attrs@, id) == attr_current(attrs@.skip(i as int), id),
        decreases attrs@.len() - i,
    {
        assert(attrs@.skip(i as int)[0] == attrs@[i as int]);
        if attrs[i].id == id {
            return Some(i);
        }
        assert(attrs@.skip(i as int).drop_first() =~= attrs@.skip(i + 1));
        i = i + 1;
    }
    None
}

/// `smartctl_attr_raw_u64`.
pub fn attribute_raw(attrs: &Vec<SmartAttribute>, id: u32) -> (r: Option<u64>)
    ensures
        r == attr_raw(attrs@, id),
{
    match attr_lookup(attrs, id) {
        Some(i) => attrs[i].raw,
        None => None,
    }
}

pub fn attribute_current(attrs: &Vec<SmartAttribute>, id: u32) -> (r: Option<u32>)
    ensures
        r == attr_current(attrs@, id),
{
    match attr_lookup(attrs, id) {
        Some(i) => attrs[i].current,
        None => None,
    }
}

/// Used endurance (percent) from the attributes: `100 - life left` from
/// the first of 231, 233, 202 that is present, when that is strictly
/// between 0 and 100; else the raw value of 202 when it is 1..100.
pub open spec fn spec_endurance_used(attrs: Seq<SmartAttribute>) -> Option<u64> {
    let life = match attr_current(attrs, 231) {
        Some(v) => Some(v),
        None => match attr_current(attrs, 233) {
            Some(v) => Some(v),
            None => attr_current(attrs, 202),
        },
    };
    if life matches Some(v) && 0 < v < 100 {
        Some((100 - life.unwrap()) as u64)
    } else {
        match attr_raw(attrs, 202) {
            Some(r) => if 0 < r <= 100 {
                Some(r)
            } else {
                None
            },
            None => None,
        }
    }
}

pub fn derive_endurance_used_from_attrs(attrs: &Vec<SmartAttribute>) -> (r: Option<u64>)
    ensures
        r == spec_endurance_used(attrs@),
{
    let life = match attribute_current(attrs, 231) {
        Some(v) => Some(v),
        None => match attribute_current(attrs, 233) {
            Some(v) => Some(v),
            None => attribute_current(attrs, 202),
        },
    };
    if let Some(v) = life {
        if v > 0 && v < 100 {
            return Some((100 - v) as u64);
        }
    }
    match attribute_raw(attrs, 202) {
        Some(r) => if r > 0 && r <= 100 {
            Some(r)
        } else {
            None
        },
        None => None,
    }
}

proof fn lemma_attr_current_at(attrs: Seq<SmartAttribute>, id: u32, i: int)
    requires
        0 <= i < attrs.len(),
        attrs[i].id == id,
        forall|j: int| 0 <= j < i ==> (#[trigger] attrs[j]).id != id,
    ensures
        attr_current(attrs, id) == attrs[i].current,
    decreases i,
{
    if i > 0 {
        let d = attrs.drop_first();
        assert forall|j: int| 0 <= j < i - 1 implies (#[trigger] d[j]).id != id by {
            assert(d[j] == attrs[j + 1]);
        }
        lemma_attr_current_at(d, id, i - 1);
        assert(attrs[0].id != id);
    }
}

proof fn lemma_attr_current_absent(attrs: Seq<SmartAttribute>, id: u32)
    requires
        forall|j: int| 0 <= j < attrs.len() ==> (#[trigger] attrs[j]).id != id,
    ensures
        attr_current(attrs, id) is None,
    decreases attrs.len(),
{
    if attrs.len() > 0 {
        let d = attrs.drop_first();
        assert forall|j: int| 0 <= j < d.len() implies (#[trigger] d[j]).id != id by {
            assert(d[j] == attrs[j + 1]);
        }
        lemma_attr_current_absent(d, id);
        assert(attrs[0].id != id);
    }
}

/// Wear used and life left add up to 100: when the life-left attribute
/// that counts (the first 231; else, with no 231, the first 233; else, with
/// neither, the first 202) reads `v` strictly between 0 and 100, the
/// endurance used is `100 - v`.
pub proof fn law_endurance_used_is_life_left_complement(attrs: Seq<SmartAttribute>, i: int, v: u32)
    requires
        0 <= i < attrs.len(),
        attrs[i].id == 231 || attrs[i].id == 233 || attrs[i].id == 202,
        attrs[i].current == Some(v),
        0 < v < 100,
        forall|j: int| 0 <= j < i ==> (#[trigger] attrs[j]).id != attrs[i].id,
        attrs[i].id != 231 ==> forall|j: int| 0 <= j < attrs.len() ==> (#[trigger] attrs[j]).id != 231,
        attrs[i].id == 202 ==> forall|j: int| 0 <= j < attrs.len() ==> (#[trigger] attrs[j]).id != 233,
    ensures
        spec_endurance_used(attrs) matches Some(u) && u + v == 100,
{
    lemma_attr_current_at(attrs, attrs[i].id, i);
    if attrs[i].id != 231 {
        lemma_attr_current_absent(attrs, 231);
    }
    if attrs[i].id == 202 {
        lemma_attr_current_absent(attrs, 233);
    }
}

/// Celsius from the raw value of attribute 194 (else 190): the raw value
/// when at most 200, else its low byte.
pub open spec fn spec_attr_temperature(attrs: Seq<SmartAttribute>) -> Option<u64> {
    let raw = match attr_raw(attrs, 194) {
        Some(v) => Some(v),
        None => attr_raw(attrs, 190),
    };
    match raw {
        Some(v) => Some(if v <= 200 {
            v
        } else {
            (v % 256) as u64
        }),
        None => None,
    }
}

pub fn attribute_temperature(attrs: &Vec<SmartAttribute>) -> (r: Option<u64>)
    ensures
        r == spec_attr_temperature(attrs@),
{
    let raw = match attribute_raw(attrs, 194) {
        Some(v) => Some(v),
        None => attribute_raw(attrs, 190),
    };
    match raw {
        Some(v) => Some(if v <= 200 {
            v
        } else {
            v % 256
        }),
        None => None,
    }
}


/// The first report found by scanning that is worth using and belongs to
/// the disk.
pub open spec fn first_matching(rs: Seq<Option<SmartctlPayload>>, d: DiskDiagnostics) -> Option<int>
    decreases rs.len(),
{
    if rs.len() == 0 {
        None
    } else {
        match first_matching(rs.drop_last(), d) {
            Some(i) => Some(i),
            None => match rs.last() {
                Some(p) => if spec_is_useful(p) && spec_payload_matches(p, d) {
                    Some(rs.len() - 1)
                } else {
                    None
                },
                None => None,
            },
        }
    }
}

proof fn lemma_first_matching_grow(rs: Seq<Option<SmartctlPayload>>, d: DiskDiagnostics, k: int, j: int)
    requires
        0 <= k <= rs.len(),
        first_matching(rs.take(k), d) == Some(j),
    ensures
        first_matching(rs, d) == Some(j),
    decreases rs.len() - k,
{
    if k < rs.len() {
        let t = rs.take(k + 1);
        assert(t.drop_last() =~= rs.take(k));
        assert(first_matching(t, d) == Some(j));
        lemma_first_matching_grow(rs, d, k + 1, j);
    } else {
        assert(rs.take(k) =~= rs);
    }
}

/// The index of the fallback report to use: the first useful answer that
/// belongs to the disk.
pub fn pick_matching_payload(results: &Vec<Option<SmartctlPayload>>, diag: &DiskDiagnostics) -> (r: Option<usize>)
    ensures
        match r {
            Some(i) => first_matching(results@, *diag) == Some(i as int),
            None => first_matching(results@, *diag) is None,
        },
{
    let mut i: usize = 0;
    while i < results.len()
        invariant
            i <= results@.len(),
            first_matching(results@.take(i as int), *diag) is None,
        decreases results@.len() - i,
    {
        assert(results@.take(i + 1).drop_last() =~= results@.take(i as int));
        let ok = match &results[i] {
            Some(p) => is_useful_smartctl_payload(p) && payload_matches_diag(p, diag),
            None => false,
        };
        if ok {
            proof {
                lemma_first_matching_grow(results@, *diag, i as int + 1, i as int);
            }
            return Some(i);
        }
        i = i + 1;
    }
    assert(results@.take(i as int) =~= results@);
    None
}

/// `a`, else `b`.
pub open spec fn opt_or(a: Option<u64>, b: Option<u64>) -> Option<u64> {
    match a {
        Some(x) => Some(x),
        None => b,
    }
}

/// What a smartctl report leaves for the fractional fields.
pub struct SmartctlFloatHints {
    /// The report had ATA attributes.
    pub ata_attributes: bool,
    /// Temperature from attribute 194/190, when it had attributes.
    pub attr_temperature: Option<u64>,
    /// Used endurance from the attributes, when it had attributes.
    pub endurance_used: Option<u64>,
}

pub open spec fn fill_text(old: Seq<char>, new: Option<String>) -> Seq<char> {
    match new {
        Some(n) => if trim(old).len() == 0 {
            n@
        } else {
            old
        },
        None => old,
    }
}

pub open spec fn payload_is_nvme(p: SmartctlPayload) -> bool {
    p.protocol matches Some(x) && eq_ignore_case(x@, "nvme"@)
}

pub open spec fn smartctl_media(old: Seq<char>, p: SmartctlPayload) -> Seq<char> {
    match p.rotation_rate {
        Some(r) => if r == 0 {
            "SSD"@
        } else {
            "HDD"@
        },
        None => if payload_is_nvme(p) && (eq_ignore_case(old, "unknown"@) || old.len() == 0) {
            "SSD"@
        } else {
            old
        },
    }
}

/// The raw value of the first row with the id (ids cut to 32 bits).
pub open spec fn row_raw(rows: Seq<SmartctlAttrItem>, id: u32) -> Option<u64>
    decreases rows.len(),
{
    if rows.len() == 0 {
        None
    } else if rows[0].id.unwrap() as u32 == id {
        rows[0].raw
    } else {
        row_raw(rows.drop_first(), id)
    }
}

proof fn lemma_row_raw(attrs: Seq<SmartAttribute>, rows: Seq<SmartctlAttrItem>, id: u32)
    requires
        attrs.len() == rows.len(),
        forall|i: int| 0 <= i < rows.len() ==> is_shown_smartctl_attribute(#[trigger] attrs[i], rows[i]),
    ensures
        attr_raw(attrs, id) == row_raw(rows, id),
    decreases rows.len(),
{
    if rows.len() > 0 {
        assert(is_shown_smartctl_attribute(attrs[0], rows[0]));
        let a2 = attrs.drop_first();
        let r2 = rows.drop_first();
        assert forall|i: int| 0 <= i < r2.len() implies is_shown_smartctl_attribute(#[trigger] a2[i], r2[i]) by {
            assert(is_shown_smartctl_attribute(attrs[i + 1], rows[i + 1]));
        }
        lemma_row_raw(a2, r2, id);
    }
}

fn smartctl_fill_texts(diag: &mut DiskDiagnostics, p: &SmartctlPayload)
    ensures
        same_identity(*old(diag), *final(diag)),
        final(diag).model@ == fill_text(old(diag).model@, p.model_name),
        final(diag).firmware_version@ == fill_text(old(diag).firmware_version@, p.firmware_version),
        final(diag).serial_number@ == (match p.serial_number {
            Some(sn) => if trim(old(diag).serial_number@).len() == 0 || spec_is_masked_serial(
                old(diag).serial_number@,
            ) {
                sn@
            } else {
                old(diag).serial_number@
            },
            None => old(diag).serial_number@,
        }),
        final(diag).transport_type@ == (if payload_is_nvme(*p) {
            "NVMe"@
        } else {
            old(diag).transport_type@
        }),
        final(diag).interface_type@ == (if payload_is_nvme(*p) {
            "NVMExpress"@
        } else {
            old(diag).interface_type@
        }),
        final(diag).media_type@ == smartctl_media(old(diag).media_type@, *p),
        final(diag).smart_supported == old(diag).smart_supported,
        final(diag).smart_enabled == old(diag).smart_enabled,
        final(diag).ata_smart_available == old(diag).ata_smart_available,
        final(diag).smart_data_source@ == old(diag).smart_data_source@,
        final(diag).smart_attributes@ == old(diag).smart_attributes@,
        final(diag).notes@ == old(diag).notes@,
        final(diag).power_on_hours == old(diag).power_on_hours,
        final(diag).power_cycle_count == old(diag).power_cycle_count,
        final(diag).host_reads_total == old(diag).host_reads_total,
        final(diag).host_writes_total == old(diag).host_writes_total,
        final(diag).read_errors_total == old(diag).read_errors_total,
        final(diag).write_errors_total == old(diag).write_errors_total,
{
    if let Some(m) = &p.model_name {
        let t = crate::text::trim_str(diag.model.as_str());
        if t.len() == 0 {
            diag.model = m.clone();
        }
    }
    if let Some(f) = &p.firmware_version {
        let t = crate::text::trim_str(diag.firmware_version.as_str());
        if t.len() == 0 {
            diag.firmware_version = f.clone();
        }
    }
    if let Some(sn) = &p.serial_number {
        let t = crate::text::trim_str(diag.serial_number.as_str());
        if t.len() == 0 || is_masked_serial(diag.serial_number.as_str()) {
            diag.serial_number = sn.clone();
        }
    }
    let is_nvme = match &p.protocol {
        Some(x) => {
            let c = to_chars(x.as_str());
            let n = to_chars("nvme");
            eq_ignore_case_chars(c.as_slice(), n.as_slice())
        },
        None => false,
    };
    if is_nvme {
        diag.transport_type = string_of("NVMe");
        diag.interface_type = string_of("NVMExpress");
        let mt = to_chars(diag.media_type.as_str());
        let unk = to_chars("unknown");
        if eq_ignore_case_chars(mt.as_slice(), unk.as_slice()) || mt.len() == 0 {
            diag.media_type = string_of("SSD");
        }
    }
    if let Some(rot) = p.rotation_rate {
        if rot == 0 {
            diag.media_type = string_of("SSD");
        } else {
            diag.media_type = string_of("HDD");
        }
    }
}

fn smartctl_fill_counters(diag: &mut DiskDiagnostics, p: &SmartctlPayload)
    ensures
        same_identity(*old(diag), *final(diag)),
        final(diag).model@ == old(diag).model@,
        final(diag).firmware_version@ == old(diag).firmware_version@,
        final(diag).serial_number@ == old(diag).serial_number@,
        final(diag).transport_type@ == old(diag).transport_type@,
        final(diag).interface_type@ == old(diag).interface_type@,
        final(diag).media_type@ == old(diag).media_type@,
        final(diag).ata_smart_available == old(diag).ata_smart_available,
        final(diag).smart_data_source@ == old(diag).smart_data_source@,
        final(diag).smart_attributes@ == old(diag).smart_attributes@,
        final(diag).notes@ == old(diag).notes@,
        final(diag).power_on_hours == opt_or(old(diag).power_on_hours, opt_or(p.power_on_hours, p.nvme_power_on_hours)),
        final(diag).power_cycle_count == opt_or(old(diag).power_cycle_count, opt_or(p.power_cycle_count, p.nvme_power_cycles)),
        final(diag).host_reads_total == opt_or(old(diag).host_reads_total, opt_or(p.nvme_host_reads, p.nvme_data_units_read)),
        final(diag).host_writes_total == opt_or(old(diag).host_writes_total, opt_or(p.nvme_host_writes, p.nvme_data_units_written)),
        final(diag).read_errors_total == opt_or(old(diag).read_errors_total, p.nvme_media_errors),
        final(diag).write_errors_total == opt_or(old(diag).write_errors_total, p.nvme_num_err_log_entries),
        final(diag).smart_enabled == (match p.smart_enabled {
            Some(e) => e,
            None => old(diag).smart_enabled,
        }),
        final(diag).smart_supported == (old(diag).smart_supported || p.smart_enabled is Some || p.smart_passed is Some),
{
    let poh = match diag.power_on_hours {
        Some(v) => Some(v),
        None => match p.power_on_hours {
            Some(v) => Some(v),
            None => p.nvme_power_on_hours,
        },
    };
    let pcc = match diag.power_cycle_count {
        Some(v) => Some(v),
        None => match p.power_cycle_count {
            Some(v) => Some(v),
            None => p.nvme_power_cycles,
        },
    };
    let hr = match diag.host_reads_total {
        Some(v) => Some(v),
        None => match p.nvme_host_reads {
            Some(v) => Some(v),
            None => p.nvme_data_units_read,
        },
    };
    let hw = match diag.host_writes_total {
        Some(v) => Some(v),
        None => match p.nvme_host_writes {
            Some(v) => Some(v),
            None => p.nvme_data_units_written,
        },
    };
    let re = match diag.read_errors_total {
        Some(v) => Some(v),
        None => p.nvme_media_errors,
    };
    let we = match diag.write_errors_total {
        Some(v) => Some(v),
        None => p.nvme_num_err_log_entries,
    };
    let enabled = match p.smart_enabled {
        Some(e) => e,
        None => diag.smart_enabled,
    };
    let supported = diag.smart_supported || p.smart_enabled.is_some() || p.smart_passed.is_some();
    diag.power_on_hours = poh;
    diag.power_cycle_count = pcc;
    diag.host_reads_total = hr;
    diag.host_writes_total = hw;
    diag.read_errors_total = re;
    diag.write_errors_total = we;
    diag.smart_enabled = enabled;
    diag.smart_supported = supported;
}

fn smartctl_fill_from_attributes(diag: &mut DiskDiagnostics, attrs: Vec<SmartAttribute>, Ghost(rows): Ghost<Seq<SmartctlAttrItem>>)
    requires
        attrs@.len() == rows.len(),
        rows.len() > 0,
        forall|i: int| 0 <= i < rows.len() ==> is_shown_smartctl_attribute(#[trigger] attrs@[i], rows[i]),
    ensures
        same_identity(*old(diag), *final(diag)),
        final(diag).model@ == old(diag).model@,
        final(diag).firmware_version@ == old(diag).firmware_version@,
        final(diag).serial_number@ == old(diag).serial_number@,
        final(diag).transport_type@ == old(diag).transport_type@,
        final(diag).interface_type@ == old(diag).interface_type@,
        final(diag).media_type@ == old(diag).media_type@,
        final(diag).smart_enabled == old(diag).smart_enabled,
        final(diag).notes@ == old(diag).notes@,
        final(diag).power_on_hours == opt_or(old(diag).power_on_hours, row_raw(rows, 9)),
        final(diag).power_cycle_count == opt_or(old(diag).power_cycle_count, row_raw(rows, 12)),
        final(diag).host_writes_total == opt_or(old(diag).host_writes_total, row_raw(rows, 241)),
        final(diag).host_reads_total == opt_or(old(diag).host_reads_total, row_raw(rows, 242)),
        final(diag).read_errors_total == opt_or(old(diag).read_errors_total, opt_or(row_raw(rows, 1), row_raw(rows, 187))),
        final(diag).write_errors_total == opt_or(old(diag).write_errors_total, opt_or(row_raw(rows, 200), row_raw(rows, 181))),
        final(diag).ata_smart_available,
        final(diag).smart_supported,
        final(diag).smart_data_source@ == spec_merge_smart_source(old(diag).smart_data_source@, "SMARTCTL_ATA"@),
        old(diag).smart_attributes@.len() < rows.len() ==> {
            &&& final(diag).smart_attributes@.len() == rows.len()
            &&& forall|i: int| 0 <= i < rows.len() ==> is_shown_smartctl_attribute(
                #[trigger] final(diag).smart_attributes@[i],
                rows[i],
            )
        },
        !(old(diag).smart_attributes@.len() < rows.len()) ==> final(diag).smart_attributes@
            == old(diag).smart_attributes@,
{
    proof {
        lemma_row_raw(attrs@, rows, 9);
        lemma_row_raw(attrs@, rows, 12);
        lemma_row_raw(attrs@, rows, 241);
        lemma_row_raw(attrs@, rows, 242);
        lemma_row_raw(attrs@, rows, 1);
        lemma_row_raw(attrs@, rows, 187);
        lemma_row_raw(attrs@, rows, 200);
        lemma_row_raw(attrs@, rows, 181);
    }
    if diag.power_on_hours.is_none() {
        diag.power_on_hours = attribute_raw(&attrs, 9);
    }
    if diag.power_cycle_count.is_none() {
        diag.power_cycle_count = attribute_raw(&attrs, 12);
    }
    if diag.host_writes_total.is_none() {
        diag.host_writes_total = attribute_raw(&attrs, 241);
    }
    if diag.host_reads_total.is_none() {
        diag.host_reads_total = attribute_raw(&attrs, 242);
    }
    if diag.read_errors_total.is_none() {
        diag.read_errors_total = match attribute_raw(&attrs, 1) {
            Some(v) => Some(v),
            None => attribute_raw(&attrs, 187),
        };
    }
    if diag.write_errors_total.is_none() {
        diag.write_errors_total = match attribute_raw(&attrs, 200) {
            Some(v) => Some(v),
            None => attribute_raw(&attrs, 181),
        };
    }
    if diag.smart_attributes.len() < attrs.len() {
        diag.smart_attributes = attrs;
    }
    diag.ata_smart_available = true;
    diag.smart_supported = true;
    diag.smart_data_source = merge_smart_source(diag.smart_data_source.as_str(), "SMARTCTL_ATA");
}

/// Takes in a smartctl report: missing texts and counters are filled from
/// it, protocol and rotation set the kind of disk, SMART support is noted,
/// and its ATA attributes (when it has any) replace a shorter list and fill
/// the counters still missing.
pub fn apply_smartctl_payload(diag: &mut DiskDiagnostics, p: &SmartctlPayload) -> (hints: SmartctlFloatHints)
    ensures
        same_identity(*old(diag), *final(diag)),
        final(diag).model@ == fill_text(old(diag).model@, p.model_name),
        final(diag).firmware_version@ == fill_text(old(diag).firmware_version@, p.firmware_version),
        final(diag).serial_number@ == (match p.serial_number {
            Some(sn) => if trim(old(diag).serial_number@).len() == 0 || spec_is_masked_serial(
                old(diag).serial_number@,
            ) {
                sn@
            } else {
                old(diag).serial_number@
            },
            None => old(diag).serial_number@,
        }),
        final(diag).transport_type@ == (if payload_is_nvme(*p) {
            "NVMe"@
        } else {
            old(diag).transport_type@
        }),
        final(diag).interface_type@ == (if payload_is_nvme(*p) {
            "NVMExpress"@
        } else {
            old(diag).interface_type@
        }),
        final(diag).media_type@ == smartctl_media(old(diag).media_type@, *p),
        final(diag).smart_enabled == (match p.smart_enabled {
            Some(e) => e,
            None => old(diag).smart_enabled,
        }),
        final(diag).notes@ == old(diag).notes@,
        ({
            let rows = rows_with_id(p.ata_table@);
            let a = rows.len() > 0;
            let s1 = if a {
                spec_merge_smart_source(old(diag).smart_data_source@, "SMARTCTL_ATA"@)
            } else {
                old(diag).smart_data_source@
            };
            let g = |o: Option<u64>| if a { o } else { None::<u64> };
            &&& hints.ata_attributes == a
            &&& final(diag).smart_supported == (old(diag).smart_supported || p.smart_enabled is Some
                || p.smart_passed is Some || a || p.has_nvme_log)
            &&& final(diag).ata_smart_available == (old(diag).ata_smart_available || a)
            &&& final(diag).smart_data_source@ == (if p.has_nvme_log {
                spec_merge_smart_source(s1, "SMARTCTL_NVME"@)
            } else {
                s1
            })
            &&& final(diag).power_on_hours == opt_or(
                opt_or(old(diag).power_on_hours, opt_or(p.power_on_hours, p.nvme_power_on_hours)),
                g(row_raw(rows, 9)),
            )
            &&& final(diag).power_cycle_count == opt_or(
                opt_or(old(diag).power_cycle_count, opt_or(p.power_cycle_count, p.nvme_power_cycles)),
                g(row_raw(rows, 12)),
            )
            &&& final(diag).host_reads_total == opt_or(
                opt_or(old(diag).host_reads_total, opt_or(p.nvme_host_reads, p.nvme_data_units_read)),
                g(row_raw(rows, 242)),
            )
            &&& final(diag).host_writes_total == opt_or(
                opt_or(old(diag).host_writes_total, opt_or(p.nvme_host_writes, p.nvme_data_units_written)),
                g(row_raw(rows, 241)),
            )
            &&& final(diag).read_errors_total == opt_or(
                opt_or(old(diag).read_errors_total, p.nvme_media_errors),
                g(opt_or(row_raw(rows, 1), row_raw(rows, 187))),
            )
            &&& final(diag).write_errors_total == opt_or(
                opt_or(old(diag).write_errors_total, p.nvme_num_err_log_entries),
                g(opt_or(row_raw(rows, 200), row_raw(rows, 181))),
            )
            &&& (a && old(diag).smart_attributes@.len() < rows.len()) ==> {
                &&& final(diag).smart_attributes@.len() == rows.len()
                &&& forall|i: int| 0 <= i < rows.len() ==> is_shown_smartctl_attribute(
                    #[trigger] final(diag).smart_attributes@[i],
                    rows[i],
                )
            }
            &&& !(a && old(diag).smart_attributes@.len() < rows.len()) ==> final(diag).smart_attributes@
                == old(diag).smart_attributes@
        }),
{
    let attrs = parse_smartctl_ata_attributes(&p.ata_table);
    smartctl_fill_texts(diag, p);
    smartctl_fill_counters(diag, p);
    let found = attrs.len() > 0;
    let mut attr_temperature: Option<u64> = None;
    let mut endurance_used: Option<u64> = None;
    if found {
        attr_temperature = attribute_temperature(&attrs);
        endurance_used = derive_endurance_used_from_attrs(&attrs);
        smartctl_fill_from_attributes(diag, attrs, Ghost(rows_with_id(p.ata_table@)));
    }
    if p.has_nvme_log {
        diag.smart_supported = true;
        diag.smart_data_source = merge_smart_source(diag.smart_data_source.as_str(), "SMARTCTL_NVME");
    }
    SmartctlFloatHints { ata_attributes: found, attr_temperature, endurance_used }
}


/// The note left on each disk when smartctl is not available.
pub open spec fn smartctl_missing_note() -> Seq<char> {
    "smartctl not found in bundled resources or PATH; include smartmontools to enable extended SMART details."@
}

/// Notes that smartctl is not available.
pub fn note_smartctl_missing(diag: &mut DiskDiagnostics)
    ensures
        strs(final(diag).notes@) == spec_add_note(strs(old(diag).notes@), smartctl_missing_note()),
        same_identity(*old(diag), *final(diag)),
        final(diag).smart_attributes@ == old(diag).smart_attributes@,
{
    add_note_unique(
        &mut diag.notes,
        "smartctl not found in bundled resources or PATH; include smartmontools to enable extended SMART details.",
    );
}

/// Takes in the smartctl report chosen for the disk, and notes that it did.
pub fn enrich_with_smartctl_payload(diag: &mut DiskDiagnostics, p: &SmartctlPayload) -> (hints: SmartctlFloatHints)
    ensures
        same_identity(*old(diag), *final(diag)),
        strs(final(diag).notes@) == spec_add_note(
            strs(old(diag).notes@),
            "Extended SMART details were enhanced via smartctl."@,
        ),
        hints.ata_attributes == (rows_with_id(p.ata_table@).len() > 0),
{
    let h = apply_smartctl_payload(diag, p);
    add_note_unique(&mut diag.notes, "Extended SMART details were enhanced via smartctl.");
    h
}

/// The native NVMe read of a disk, from what the two queries returned:
/// the identify data fills missing texts; a health log is taken in and
/// noted. `None` when there was no health log (the read failed).
pub fn enrich_with_native_nvme(
    diag: &mut DiskDiagnostics,
    identify: Option<NVMeIdentifyInfo>,
    health: Option<NVMeSmartData>,
) -> (r: Option<NvmeFloatHints>)
    ensures
        same_identity(*old(diag), *final(diag)),
        final(diag).model@ == identified_model(old(diag).model@, identify),
        final(diag).serial_number@ == identified_serial(old(diag).serial_number@, identify),
        final(diag).firmware_version@ == identified_firmware(old(diag).firmware_version@, identify),
        r is Some <==> health is Some,
        health is None ==> same_counters(*old(diag), *final(diag)) && same_smart_state(
            *old(diag),
            *final(diag),
        ),
        health matches Some(h) ==> {
            &&& nvme_data_applied(*old(diag), *final(diag), h)
            &&& r matches Some(hints) && nvme_hints_of(hints, h)
            &&& strs(final(diag).notes@) == spec_add_note(
                strs(old(diag).notes@),
                "NVMe SMART data read directly via Windows Storage Query API."@,
            )
        },
{
    if let Some(id) = &identify {
        apply_nvme_identify(diag, id);
    }
    match &health {
        Some(h) => {
            let hints = apply_native_nvme_data(diag, h);
            add_note_unique(&mut diag.notes, "NVMe SMART data read directly via Windows Storage Query API.");
            Some(hints)
        },
        None => None,
    }
}

} // verus!

//! ATA SMART attribute tables, the SAT pass-through command blocks used to
//! fetch them through USB bridges, and the choice among the read methods.
//!
//! The device I/O (opening `\\.\PhysicalDriveN` and the `DeviceIoControl`
//! calls) stays with the caller; this module decides and parses.

use crate::bytes::{any_nonzero, any_nonzero_prefix, le, prefix, read_le_u64};
use crate::text::string_of;
use vstd::prelude::*;

verus! {

/// Size of an ATA SMART attribute or threshold table that the parser reads.
pub const SMART_TABLE_BYTES: usize = 362;

/// ATA `SMART` command.
pub const SMART_CMD: u8 = 0xB0;

/// SMART sub-command: read attribute values.
pub const READ_ATTRIBUTES: u8 = 0xD0;

/// SMART sub-command: read attribute thresholds.
pub const READ_THRESHOLDS: u8 = 0xD1;

#[derive(Debug, Clone, Copy, PartialEq, Eq, Structural)]
pub struct SmartAttribute {
    pub id: u8,
    pub current: u8,
    pub worst: u8,
    pub threshold: u8,
    pub raw: u64,
}

/// How the SMART tables were obtained.
#[derive(Debug, Clone, Copy, PartialEq, Eq, Structural)]
pub enum SmartReadMethod {
    AtaPassThrough,
    PhysicalDrive,
    SatBridge,
}

pub struct SmartData {
    pub read_method: SmartReadMethod,
    pub thresholds_available: bool,
    pub attributes: Vec<SmartAttribute>,
    pub temperature: Option<i32>,
    pub power_on_hours: Option<u64>,
    pub power_cycle_count: Option<u64>,
}

// ---------------------------------------------------------------------------
// Attribute tables
// ---------------------------------------------------------------------------

/// Byte offset of attribute slot `j` (slots start at byte 2, 12 bytes each).
pub open spec fn slot(j: int) -> int {
    2 + 12 * j
}

/// Threshold of attribute `id`: byte 1 of the first threshold slot whose id
/// byte matches, among slots `j .. 30`; 0 when none does.
pub open spec fn threshold_from(t: Seq<u8>, id: u8, j: int) -> u8
    decreases 30 - j,
{
    if j >= 30 {
        0
    } else if t[slot(j)] == id {
        t[slot(j) + 1]
    } else {
        threshold_from(t, id, j + 1)
    }
}

/// Threshold of `id` in an optional threshold table.
pub open spec fn threshold_of(thr: Option<Seq<u8>>, id: u8) -> u8 {
    match thr {
        Some(t) => threshold_from(t, id, 0),
        None => 0,
    }
}

/// The attribute held in slot `j` of the attribute table.
pub open spec fn slot_attribute(d: Seq<u8>, thr: Option<Seq<u8>>, j: int) -> SmartAttribute {
    SmartAttribute {
        id: d[slot(j)],
        current: d[slot(j) + 3],
        worst: d[slot(j) + 4],
        threshold: threshold_of(thr, d[slot(j)]),
        raw: le(d, slot(j) + 5, 6) as u64,
    }
}

/// The attributes of slots `0 .. n` whose id byte is non-zero, in slot order.
pub open spec fn table_attributes(d: Seq<u8>, thr: Option<Seq<u8>>, n: int) -> Seq<
    SmartAttribute,
>
    decreases n,
{
    if n <= 0 {
        Seq::empty()
    } else if d[slot(n - 1)] == 0 {
        table_attributes(d, thr, n - 1)
    } else {
        table_attributes(d, thr, n - 1).push(slot_attribute(d, thr, n - 1))
    }
}

/// First attribute (in table order) that satisfies `pred`.
pub open spec fn first_attr(s: Seq<SmartAttribute>, pred: spec_fn(SmartAttribute) -> bool) -> Option<
    SmartAttribute,
>
    decreases s.len(),
{
    if s.len() == 0 {
        None
    } else if pred(s[0]) {
        Some(s[0])
    } else {
        first_attr(s.drop_first(), pred)
    }
}

pub open spec fn has_id(id: u8) -> spec_fn(SmartAttribute) -> bool {
    |a: SmartAttribute| a.id == id
}

pub open spec fn is_temperature_attr() -> spec_fn(SmartAttribute) -> bool {
    |a: SmartAttribute| a.id == 194 || a.id == 190
}

/// Degrees Celsius from a temperature attribute's raw value: the raw value
/// itself when at most 200, else its low byte.
pub open spec fn raw_temperature(raw: u64) -> i32 {
    if raw <= 200 {
        raw as i32
    } else {
        (raw % 256) as i32
    }
}

pub open spec fn spec_temperature(attrs: Seq<SmartAttribute>) -> Option<i32> {
    match first_attr(attrs, is_temperature_attr()) {
        Some(a) => Some(raw_temperature(a.raw)),
        None => None,
    }
}

pub open spec fn spec_raw_of(attrs: Seq<SmartAttribute>, id: u8) -> Option<u64> {
    match first_attr(attrs, has_id(id)) {
        Some(a) => Some(a.raw),
        None => None,
    }
}

/// Whether a `SmartData` is the one built from these attributes.
pub open spec fn built_from(
    r: SmartData,
    attrs: Seq<SmartAttribute>,
    method: SmartReadMethod,
    thresholds_available: bool,
) -> bool {
    &&& r.read_method == method
    &&& r.thresholds_available == thresholds_available
    &&& r.attributes@ == attrs
    &&& r.temperature == spec_temperature(attrs)
    &&& r.power_on_hours == spec_raw_of(attrs, 9)
    &&& r.power_cycle_count == spec_raw_of(attrs, 12)
}

/// Position of the first attribute satisfying `pred` at or after `from`.
fn find_attr_index(
    attrs: &[SmartAttribute],
    from: usize,
    a: u8,
    b: u8,
) -> (r: Option<usize>)
    requires
        from <= attrs@.len(),
    ensures
        first_attr(attrs@.subrange(from as int, attrs@.len() as int), |x: SmartAttribute| x.id == a || x.id == b)
            == (match r {
            Some(i) => Some(attrs@[i as int]),
            None => None::<SmartAttribute>,
        }),
        r matches Some(i) ==> i < attrs@.len(),
    decreases attrs@.len() - from,
{
    let ghost pred = |x: SmartAttribute| x.id == a || x.id == b;
    let ghost s = attrs@.subrange(from as int, attrs@.len() as int);
    if from == attrs.len() {
        return None;
    }
    assert(s[0] == attrs@[from as int]);
    if attrs[from].id == a || attrs[from].id == b {
        Some(from)
    } else {
        assert(s.drop_first() =~= attrs@.subrange(from + 1, attrs@.len() as int));
        find_attr_index(attrs, from + 1, a, b)
    }
}

impl SmartData {
    /// Bundles the attributes with the temperature (attribute 194, else 190),
    /// power-on hours (9) and power-cycle count (12) taken from them.
    pub fn from_attributes(
        attributes: &[SmartAttribute],
        read_method: SmartReadMethod,
        thresholds_available: bool,
    ) -> (r: SmartData)
        ensures
            built_from(r, attributes@, read_method, thresholds_available),
    {
        assert(attributes@.subrange(0, attributes@.len() as int) =~= attributes@);
        let t = find_attr_index(attributes, 0, 194, 190);
        assert(is_temperature_attr() =~= |x: SmartAttribute| x.id == 194 || x.id == 190);
        let temperature = match t {
            Some(i) => {
                let raw = attributes[i].raw;
                if raw <= 200 {
                    Some(raw as i32)
                } else {
                    Some((raw % 256) as i32)
                }
            },
            None => None,
        };
        let h = find_attr_index(attributes, 0, 9, 9);
        assert(has_id(9) =~= |x: SmartAttribute| x.id == 9 || x.id == 9);
        let power_on_hours = match h {
            Some(i) => Some(attributes[i].raw),
            None => None,
        };
        let c = find_attr_index(attributes, 0, 12, 12);
        assert(has_id(12) =~= |x: SmartAttribute| x.id == 12 || x.id == 12);
        let power_cycle_count = match c {
            Some(i) => Some(attributes[i].raw),
            None => None,
        };
        let mut v: Vec<SmartAttribute> = Vec::new();
        let mut i: usize = 0;
        while i < attributes.len()
            invariant
                i <= attributes@.len(),
                v@ == attributes@.take(i as int),
            decreases attributes@.len() - i,
        {
            v.push(attributes[i]);
            i = i + 1;
            assert(v@ =~= attributes@.take(i as int));
        }
        assert(v@ =~= attributes@);
        SmartData {
            read_method,
            thresholds_available,
            attributes: v,
            temperature,
            power_on_hours,
            power_cycle_count,
        }
    }

    /// The first attribute with the given id.
    pub fn get_attribute(&self, id: u8) -> (r: Option<&SmartAttribute>)
        ensures
            first_attr(self.attributes@, has_id(id)) == (match r {
                Some(a) => Some(*a),
                None => None::<SmartAttribute>,
            }),
    {
        assert(self.attributes@.subrange(0, self.attributes@.len() as int) =~= self.attributes@);
        assert(has_id(id) =~= |x: SmartAttribute| x.id == id || x.id == id);
        match find_attr_index(self.attributes.as_slice(), 0, id, id) {
            Some(i) => Some(&self.attributes[i]),
            None => None,
        }
    }
}

fn threshold_lookup(t: &[u8], id: u8) -> (r: u8)
    requires
        t@.len() >= 362,
    ensures
        r == threshold_from(t@, id, 0),
{
    let mut j: usize = 0;
    while j < 30
        invariant
            j <= 30,
            t@.len() >= 362,
            threshold_from(t@, id, 0) == threshold_from(t@, id, j as int),
        decreases 30 - j,
    {
        let off = 2 + 12 * j;
        if t[off] == id {
            return t[off + 1];
        }
        j = j + 1;
    }
    0
}

/// The parse of an attribute table (and optional threshold table).
pub open spec fn spec_parse_tables(
    attr_data: Seq<u8>,
    threshold_data: Option<Seq<u8>>,
) -> Seq<SmartAttribute> {
    let thr = match threshold_data {
        Some(t) => if t.len() >= 362 {
            Some(t)
        } else {
            None
        },
        None => None,
    };
    table_attributes(attr_data, thr, 30)
}

/// The optional byte slice, viewed.
pub open spec fn opt_view(t: Option<&[u8]>) -> Option<Seq<u8>> {
    match t {
        Some(t) => Some(t@),
        None => None,
    }
}

/// Whether the threshold table is usable (present and long enough).
pub open spec fn spec_thresholds_available(threshold_data: Option<Seq<u8>>) -> bool {
    match threshold_data {
        Some(t) => t.len() >= 362,
        None => false,
    }
}

/// Parses the ATA SMART attribute table (and, when it is at least 362 bytes
/// long, the threshold table).  Slots with id 0 are skipped; a threshold is 0
/// when the threshold table is missing or has no slot for the id.
pub fn parse_ata_smart_tables(
    attr_data: &[u8],
    threshold_data: Option<&[u8]>,
    method: SmartReadMethod,
) -> (r: Result<SmartData, String>)
    ensures
        attr_data@.len() < 362 ==> (r matches Err(e) && e@
            == "SMART attribute table payload too small"@),
        attr_data@.len() >= 362 && spec_parse_tables(attr_data@, opt_view(threshold_data)).len()
            == 0 ==> (r matches Err(e) && e@ == "SMART attributes are empty"@),
        attr_data@.len() >= 362 && spec_parse_tables(attr_data@, opt_view(threshold_data)).len()
            > 0 ==> (r matches Ok(data) && built_from(
            data,
            spec_parse_tables(attr_data@, opt_view(threshold_data)),
            method,
            spec_thresholds_available(opt_view(threshold_data)),
        )),
{
    if attr_data.len() < 362 {
        return Err(string_of("SMART attribute table payload too small"));
    }
    let ghost td = match threshold_data {
        Some(t) => Some(t@),
        None => None,
    };
    let thresholds: Option<&[u8]> = match threshold_data {
        Some(t) => if t.len() >= 362 {
            Some(t)
        } else {
            None
        },
        None => None,
    };
    let ghost thr = match thresholds {
        Some(t) => Some(t@),
        None => None,
    };
    assert(spec_parse_tables(attr_data@, td) == table_attributes(attr_data@, thr, 30));
    let thresholds_available = thresholds.is_some();
    let mut attributes: Vec<SmartAttribute> = Vec::new();
    let mut j: usize = 0;
    while j < 30
        invariant
            j <= 30,
            attr_data@.len() >= 362,
            thr == (match thresholds {
                Some(t) => Some(t@),
                None => None,
            }),
            thr matches Some(t) ==> t.len() >= 362,
            attributes@ == table_attributes(attr_data@, thr, j as int),
        decreases 30 - j,
    {
        let i = 2 + 12 * j;
        let id = attr_data[i];
        if id != 0 {
            let current = attr_data[i + 3];
            let worst = attr_data[i + 4];
            let raw = read_le_u64(attr_data, i + 5, 6);
            let threshold: u8 = match thresholds {
                Some(t) => threshold_lookup(t, id),
                None => 0,
            };
            attributes.push(SmartAttribute { id, current, worst, threshold, raw });
        }
        j = j + 1;
    }
    if attributes.len() == 0 {
        return Err(string_of("SMART attributes are empty"));
    }
    Ok(SmartData::from_attributes(attributes.as_slice(), method, thresholds_available))
}

// ---------------------------------------------------------------------------
// SAT pass-through command blocks
// ---------------------------------------------------------------------------

/// Vendor variants of SCSI/ATA translation used by USB bridges.
#[derive(Debug, Clone, Copy, PartialEq, Eq, Structural)]
pub enum SatPattern {
    Ata12(u8),
    Ata16(u8),
    Sunplus,
    IoData,
    Logitec,
    Prolific,
    JMicron,
    Cypress,
}

/// The bridge variants in the order they are tried.
pub open spec fn spec_sat_attempts() -> Seq<SatPattern> {
    seq![
        SatPattern::Ata12(0x2E),
        SatPattern::Ata16(0x2E),
        SatPattern::Ata12(0x0E),
        SatPattern::Ata16(0x0E),
        SatPattern::JMicron,
        SatPattern::Sunplus,
        SatPattern::IoData,
        SatPattern::Logitec,
        SatPattern::Prolific,
        SatPattern::Cypress,
    ]
}

/// The bridge variants in the order they are tried.
pub fn sat_attempts() -> (r: Vec<SatPattern>)
    ensures
        r@ == spec_sat_attempts(),
{
    let r = vec![
        SatPattern::Ata12(0x2E),
        SatPattern::Ata16(0x2E),
        SatPattern::Ata12(0x0E),
        SatPattern::Ata16(0x0E),
        SatPattern::JMicron,
        SatPattern::Sunplus,
        SatPattern::IoData,
        SatPattern::Logitec,
        SatPattern::Prolific,
        SatPattern::Cypress,
    ];
    assert(r@ =~= spec_sat_attempts());
    r
}

pub open spec fn spec_cdb_length(p: SatPattern) -> u8 {
    match p {
        SatPattern::Ata16(_) | SatPattern::Prolific | SatPattern::Cypress => 16,
        SatPattern::Logitec => 10,
        _ => 12,
    }
}

/// Length of the command block each variant uses.
pub fn sat_pattern_cdb_length(pattern: SatPattern) -> (r: u8)
    ensures
        r == spec_cdb_length(pattern),
{
    match pattern {
        SatPattern::Ata16(_) | SatPattern::Prolific | SatPattern::Cypress => 16,
        SatPattern::Logitec => 10,
        _ => 12,
    }
}

/// The command block bytes each variant sets: pairs of (index, value).
pub open spec fn cdb_writes(sub: u8, p: SatPattern) -> Seq<(int, u8)> {
    match p {
        SatPattern::Ata12(flags) => seq![
            (0, 0xA1u8), (1, 0x08u8), (2, flags), (3, sub), (4, 0x01u8), (5, 0x01u8),
            (6, 0x4Fu8), (7, 0xC2u8), (8, 0xA0u8), (9, SMART_CMD),
        ],
        SatPattern::Ata16(flags) => seq![
            (0, 0x85u8), (1, 0x08u8), (2, flags), (4, sub), (6, 0x01u8), (10, 0x4Fu8),
            (12, 0xC2u8), (13, 0xA0u8), (14, SMART_CMD),
        ],
        SatPattern::Sunplus => seq![
            (0, 0xF8u8), (2, 0x22u8), (3, 0x10u8), (4, 0x01u8), (5, sub), (6, 0x01u8),
            (8, 0x4Fu8), (9, 0xC2u8), (10, 0xA0u8), (11, SMART_CMD),
        ],
        SatPattern::IoData => seq![
            (0, 0xE3u8), (2, sub), (5, 0x4Fu8), (6, 0xC2u8), (7, 0xA0u8), (8, SMART_CMD),
        ],
        SatPattern::Logitec => seq![
            (0, 0xE0u8), (2, sub), (5, 0x4Fu8), (6, 0xC2u8), (7, 0xA0u8), (8, SMART_CMD),
            (9, 0x4Cu8),
        ],
        SatPattern::Prolific => seq![
            (0, 0xD8u8), (1, 0x15u8), (3, sub), (4, 0x06u8), (5, 0x7Bu8), (8, 0x02u8),
            (10, 0x01u8), (12, 0x4Fu8), (13, 0xC2u8), (14, 0xA0u8), (15, SMART_CMD),
        ],
        SatPattern::JMicron => seq![
            (0, 0xDFu8), (1, 0x10u8), (3, 0x02u8), (5, sub), (6, 0x01u8), (7, 0x01u8),
            (8, 0x4Fu8), (9, 0xC2u8), (10, 0xA0u8), (11, SMART_CMD),
        ],
        SatPattern::Cypress => seq![
            (0, 0x24u8), (1, 0x24u8), (3, 0xBEu8), (4, 0x01u8), (6, sub), (9, 0x4Fu8),
            (10, 0xC2u8), (11, 0xA0u8), (12, SMART_CMD),
        ],
    }
}

/// `cdb` with the first `n` writes applied.
pub open spec fn apply_writes(cdb: Seq<u8>, w: Seq<(int, u8)>, n: int) -> Seq<u8>
    decreases n,
{
    if n <= 0 {
        cdb
    } else {
        apply_writes(cdb, w, n - 1).update(w[n - 1].0, w[n - 1].1)
    }
}

/// The command block after `build_sat_cdb`.
pub open spec fn spec_sat_cdb(cdb: Seq<u8>, sub: u8, p: SatPattern) -> Seq<u8> {
    apply_writes(cdb, cdb_writes(sub, p), cdb_writes(sub, p).len() as int)
}

/// Writes the SAT command block of the given bridge variant for a SMART
/// read with sub-command `sub_command`; bytes that the variant does not use
/// keep their value.
pub fn build_sat_cdb(cdb: &mut [u8; 16], sub_command: u8, pattern: SatPattern)
    ensures
        final(cdb)@ == spec_sat_cdb(old(cdb)@, sub_command, pattern),
{
    let ghost w = cdb_writes(sub_command, pattern);
    let writes = cdb_write_list(sub_command, pattern);
    let ghost start = cdb@;
    let mut k: usize = 0;
    while k < writes.len()
        invariant
            writes@.len() == w.len(),
            forall|i: int| 0 <= i < w.len() ==> (writes@[i].0 as int, writes@[i].1) == w[i],
            forall|i: int| 0 <= i < w.len() ==> 0 <= #[trigger] w[i].0 < 16,
            w == cdb_writes(sub_command, pattern),
            start == old(cdb)@,
            k <= writes@.len(),
            cdb@ == apply_writes(start, w, k as int),
        decreases writes@.len() - k,
    {
        let (idx, val) = writes[k];
        cdb[idx] = val;
        k = k + 1;
        assert(cdb@ =~= apply_writes(start, w, k as int));
    }
}

/// The (index, value) writes of `cdb_writes`, as executable data.
fn cdb_write_list(sub: u8, p: SatPattern) -> (r: Vec<(usize, u8)>)
    ensures
        r@.len() == cdb_writes(sub, p).len(),
        forall|i: int|
            0 <= i < r@.len() ==> (r@[i].0 as int, r@[i].1) == cdb_writes(sub, p)[i],
        forall|i: int| 0 <= i < cdb_writes(sub, p).len() ==> 0 <= #[trigger] cdb_writes(sub, p)[i].0 < 16,
{
    let r: Vec<(usize, u8)> = match p {
        SatPattern::Ata12(flags) => vec![
            (0, 0xA1), (1, 0x08), (2, flags), (3, sub), (4, 0x01), (5, 0x01), (6, 0x4F),
            (7, 0xC2), (8, 0xA0), (9, SMART_CMD),
        ],
        SatPattern::Ata16(flags) => vec![
            (0, 0x85), (1, 0x08), (2, flags), (4, sub), (6, 0x01), (10, 0x4F), (12, 0xC2),
            (13, 0xA0), (14, SMART_CMD),
        ],
        SatPattern::Sunplus => vec![
            (0, 0xF8), (2, 0x22), (3, 0x10), (4, 0x01), (5, sub), (6, 0x01), (8, 0x4F),
            (9, 0xC2), (10, 0xA0), (11, SMART_CMD),
        ],
        SatPattern::IoData => vec![
            (0, 0xE3), (2, sub), (5, 0x4F), (6, 0xC2), (7, 0xA0), (8, SMART_CMD),
        ],
        SatPattern::Logitec => vec![
            (0, 0xE0), (2, sub), (5, 0x4F), (6, 0xC2), (7, 0xA0), (8, SMART_CMD), (9, 0x4C),
        ],
        SatPattern::Prolific => vec![
            (0, 0xD8), (1, 0x15), (3, sub), (4, 0x06), (5, 0x7B), (8, 0x02), (10, 0x01),
            (12, 0x4F), (13, 0xC2), (14, 0xA0), (15, SMART_CMD),
        ],
        SatPattern::JMicron => vec![
            (0, 0xDF), (1, 0x10), (3, 0x02), (5, sub), (6, 0x01), (7, 0x01), (8, 0x4F),
            (9, 0xC2), (10, 0xA0), (11, SMART_CMD),
        ],
        SatPattern::Cypress => vec![
            (0, 0x24), (1, 0x24), (3, 0xBE), (4, 0x01), (6, sub), (9, 0x4F), (10, 0xC2),
            (11, 0xA0), (12, SMART_CMD),
        ],
    };
    r
}

// ---------------------------------------------------------------------------
// Choosing among read attempts
// ---------------------------------------------------------------------------

/// What one SAT attempt reported: the 512-byte data buffer or an error.
pub open spec fn sat_attempt_ok(r: Result<Seq<u8>, Seq<char>>) -> bool {
    r matches Ok(d) && any_nonzero(d)
}

/// The message an unsuccessful attempt leaves behind.
pub open spec fn sat_attempt_error(r: Result<Seq<u8>, Seq<char>>) -> Seq<char> {
    match r {
        Ok(_) => "SAT returned empty buffer"@,
        Err(e) => e,
    }
}

pub open spec fn view_results(v: Seq<Result<Vec<u8>, String>>) -> Seq<Result<Seq<u8>, Seq<char>>> {
    v.map_values(|r: Result<Vec<u8>, String>| match r {
        Ok(d) => Ok(d@),
        Err(e) => Err(e@),
    })
}

/// Outcome of the SAT attempts tried so far: the first buffer with a
/// non-zero byte; else the last attempt's message, or a generic failure
/// when there is none (or it is empty).
pub open spec fn spec_sat_outcome(rs: Seq<Result<Seq<u8>, Seq<char>>>) -> Result<Seq<u8>, Seq<char>>
    decreases rs.len(),
{
    if rs.len() == 0 {
        Err("SAT SMART command failed"@)
    } else if sat_attempt_ok(rs[0]) {
        Ok(rs[0]->Ok_0)
    } else if rs.len() == 1 {
        let e = sat_attempt_error(rs[0]);
        if e.len() == 0 {
            Err("SAT SMART command failed"@)
        } else {
            Err(e)
        }
    } else {
        spec_sat_outcome(rs.drop_first())
    }
}

/// Combines the results of the SAT attempts (in the order they were made)
/// into the result of the SAT SMART command.
pub fn send_sat_smart_command(results: Vec<Result<Vec<u8>, String>>) -> (r: Result<
    Vec<u8>,
    String,
>)
    ensures
        (match r {
            Ok(d) => Ok(d@),
            Err(e) => Err(e@),
        }) == spec_sat_outcome(view_results(results@)),
{
    let ghost vs = view_results(results@);
    let mut i: usize = 0;
    let mut last_err = String::new();
    while i < results.len()
        invariant
            i <= results@.len(),
            vs == view_results(results@),
            vs.len() == results@.len(),
            i == 0 ==> last_err@.len() == 0,
            i > 0 ==> last_err@ == sat_attempt_error(vs[i - 1]) && !sat_attempt_ok(vs[i - 1]),
            spec_sat_outcome(vs) == (if i == 0 {
                spec_sat_outcome(vs)
            } else {
                spec_sat_outcome(vs.subrange(i - 1, vs.len() as int))
            }),
        decreases results@.len() - i,
    {
        let ghost rest = vs.subrange(i as int, vs.len() as int);
        assert(rest[0] == vs[i as int]);
        assert(vs.subrange(0, vs.len() as int) =~= vs);
        match &results[i] {
            Ok(d) => {
                if any_nonzero_prefix(d.as_slice(), d.len()) {
                    assert(prefix(d@, d@.len()) =~= d@);
                    let out = copy_bytes(d.as_slice());
                    proof {
                        lemma_sat_outcome_step(vs, i as int);
                    }
                    return Ok(out);
                }
                assert(prefix(d@, d@.len()) =~= d@);
                last_err = string_of("SAT returned empty buffer");
            },
            Err(e) => {
                last_err = e.clone();
            },
        }
        proof {
            lemma_sat_outcome_step(vs, i as int);
        }
        i = i + 1;
    }
    proof {
        lemma_sat_outcome_end(vs);
    }
    if last_err.as_str().unicode_len() == 0 {
        Err(string_of("SAT SMART command failed"))
    } else {
        Err(last_err)
    }
}

proof fn lemma_sat_outcome_step(vs: Seq<Result<Seq<u8>, Seq<char>>>, i: int)
    requires
        0 <= i < vs.len(),
        i > 0 ==> !sat_attempt_ok(vs[i - 1]),
    ensures
        i > 0 ==> spec_sat_outcome(vs.subrange(i - 1, vs.len() as int)) == spec_sat_outcome(
            vs.subrange(i, vs.len() as int),
        ),
        sat_attempt_ok(vs[i]) ==> spec_sat_outcome(vs.subrange(i, vs.len() as int)) == Ok::<
            Seq<u8>,
            Seq<char>,
        >(vs[i]->Ok_0),
{
    if i > 0 {
        let a = vs.subrange(i - 1, vs.len() as int);
        assert(a.drop_first() =~= vs.subrange(i, vs.len() as int));
        assert(a[0] == vs[i - 1]);
    }
    let b = vs.subrange(i, vs.len() as int);
    assert(b[0] == vs[i]);
}

proof fn lemma_sat_outcome_end(vs: Seq<Result<Seq<u8>, Seq<char>>>)
    requires
        vs.len() > 0 ==> !sat_attempt_ok(vs[vs.len() - 1]),
    ensures
        vs.len() > 0 ==> spec_sat_outcome(vs.subrange(vs.len() - 1, vs.len() as int)) == (if sat_attempt_error(vs[vs.len() - 1]).len() == 0 {
            Err::<Seq<u8>, Seq<char>>("SAT SMART command failed"@)
        } else {
            Err(sat_attempt_error(vs[vs.len() - 1]))
        }),
{
    if vs.len() > 0 {
        let a = vs.subrange(vs.len() - 1, vs.len() as int);
        assert(a[0] == vs[vs.len() - 1]);
    }
}

/// A copy of a byte slice.
pub fn copy_bytes(d: &[u8]) -> (r: Vec<u8>)
    ensures
        r@ == d@,
{
    let mut r: Vec<u8> = Vec::new();
    let mut i: usize = 0;
    while i < d.len()
        invariant
            i <= d@.len(),
            r@ == d@.take(i as int),
        decreases d@.len() - i,
    {
        r.push(d[i]);
        i = i + 1;
        assert(r@ =~= d@.take(i as int));
    }
    assert(r@ =~= d@);
    r
}

/// Raw tables one read method returned: the attribute table (or the error
/// of reading it) and the threshold table, if that read succeeded.
pub struct SmartMethodRead {
    pub attributes: Result<Vec<u8>, String>,
    pub thresholds: Option<Vec<u8>>,
}

/// Result of one method: its attribute read failed, or the tables parse.
pub open spec fn spec_method_result(
    m: SmartMethodRead,
    method: SmartReadMethod,
) -> Option<Seq<SmartAttribute>> {
    match m.attributes {
        Err(_) => None,
        Ok(a) => if a@.len() >= 362 && spec_parse_tables(
            a@,
            match m.thresholds {
                Some(t) => Some(t@),
                None => None,
            },
        ).len() > 0 {
            Some(
                spec_parse_tables(
                    a@,
                    match m.thresholds {
                        Some(t) => Some(t@),
                        None => None,
                    },
                ),
            )
        } else {
            None
        },
    }
}

pub open spec fn method_thresholds(m: SmartMethodRead) -> bool {
    spec_thresholds_available(
        match m.thresholds {
            Some(t) => Some(t@),
            None => None,
        },
    )
}

/// The handle of one physical drive, with what each read method returned.
pub struct DiskHandle {
    pub physical_drive_id: u32,
    pub ata_pass_through: SmartMethodRead,
    pub physical_drive: SmartMethodRead,
    pub sat_bridge: SmartMethodRead,
}

impl DiskHandle {
    /// SMART data from the first method that yields a parsable table, trying
    /// ATA pass-through, then the legacy SMART command, then SAT bridges.
    pub fn read_smart_data(&self) -> (r: Result<SmartData, String>)
        ensures
            match spec_method_result(self.ata_pass_through, SmartReadMethod::AtaPassThrough) {
                Some(a) => (r matches Ok(d) && built_from(
                    d,
                    a,
                    SmartReadMethod::AtaPassThrough,
                    method_thresholds(self.ata_pass_through),
                )),
                None => match spec_method_result(self.physical_drive, SmartReadMethod::PhysicalDrive) {
                    Some(a) => (r matches Ok(d) && built_from(
                        d,
                        a,
                        SmartReadMethod::PhysicalDrive,
                        method_thresholds(self.physical_drive),
                    )),
                    None => match spec_method_result(self.sat_bridge, SmartReadMethod::SatBridge) {
                        Some(a) => (r matches Ok(d) && built_from(
                            d,
                            a,
                            SmartReadMethod::SatBridge,
                            method_thresholds(self.sat_bridge),
                        )),
                        None => (r matches Err(e) && e@
                            == "Failed to read SMART data using any method"@),
                    },
                },
            },
    {
        if let Ok(d) = parse_method(&self.ata_pass_through, SmartReadMethod::AtaPassThrough) {
            return Ok(d);
        }
        if let Ok(d) = parse_method(&self.physical_drive, SmartReadMethod::PhysicalDrive) {
            return Ok(d);
        }
        if let Ok(d) = parse_method(&self.sat_bridge, SmartReadMethod::SatBridge) {
            return Ok(d);
        }
        Err(string_of("Failed to read SMART data using any method"))
    }
}

fn parse_method(m: &SmartMethodRead, method: SmartReadMethod) -> (r: Result<SmartData, String>)
    ensures
        spec_method_result(*m, method) matches Some(a) ==> (r matches Ok(d) && built_from(
            d,
            a,
            method,
            method_thresholds(*m),
        )),
        spec_method_result(*m, method) is None ==> r is Err,
{
    match &m.attributes {
        Err(e) => Err(e.clone()),
        Ok(a) => {
            let t: Option<&[u8]> = match &m.thresholds {
                Some(t) => Some(t.as_slice()),
                None => None,
            };
            parse_ata_smart_tables(a.as_slice(), t, method)
        },
    }
}

} // verus!

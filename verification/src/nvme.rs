//! NVMe health log and identify-controller parsing, and the choice among
//! storage-query attempts.

use crate::bytes::{any_nonzero, any_nonzero_prefix, le, prefix, read_le_u128, read_le_u64};
use crate::smart::copy_bytes;
use crate::text::{is_ws, is_ws_char, string_of, trim, to_chars, trim_chars};
use vstd::prelude::*;
use vstd::utf8::{decode_utf8, valid_utf8};

verus! {

#[derive(Debug, Clone)]
pub struct NVMeSmartData {
    pub critical_warning: u8,
    pub temperature: i32,
    pub available_spare: u8,
    pub available_spare_threshold: u8,
    pub percentage_used: u8,
    pub data_units_read: u128,
    pub data_units_written: u128,
    pub host_read_commands: u128,
    pub host_write_commands: u128,
    pub controller_busy_time: u128,
    pub power_cycles: u128,
    pub power_on_hours: u128,
    pub unsafe_shutdowns: u128,
    pub media_errors: u128,
    pub num_err_log_entries: u128,
    pub warning_temp_time: u32,
    pub critical_temp_time: u32,
    pub temp_sensors: [i32; 8],
}

#[derive(Debug, Clone)]
pub struct NVMeIdentifyInfo {
    pub model: String,
    pub serial_number: String,
    pub firmware_version: String,
}

/// Celsius from a Kelvin reading; -1000 marks a reading outside 1..0x7FFF.
pub open spec fn kelvin_to_celsius(k: nat) -> i32 {
    if 1 <= k < 0x7FFF {
        (k - 273) as i32
    } else {
        -1000i32
    }
}

/// `parse_u128_le_at`: the 16-byte little-endian value at `off`, or 0 when
/// the buffer is too short.
pub open spec fn spec_u128_at(b: Seq<u8>, off: int) -> u128 {
    if off + 16 > b.len() {
        0
    } else {
        le(b, off, 16) as u128
    }
}

/// Whether `r` is the health log that the 512-byte buffer `b` encodes.
pub open spec fn parsed_health_log(r: NVMeSmartData, b: Seq<u8>) -> bool {
    &&& r.critical_warning == b[0]
    &&& r.temperature == kelvin_to_celsius(le(b, 1, 2))
    &&& r.available_spare == b[3]
    &&& r.available_spare_threshold == b[4]
    &&& r.percentage_used == b[5]
    &&& r.data_units_read == spec_u128_at(b, 32)
    &&& r.data_units_written == spec_u128_at(b, 48)
    &&& r.host_read_commands == spec_u128_at(b, 64)
    &&& r.host_write_commands == spec_u128_at(b, 80)
    &&& r.controller_busy_time == spec_u128_at(b, 96)
    &&& r.power_cycles == spec_u128_at(b, 112)
    &&& r.power_on_hours == spec_u128_at(b, 128)
    &&& r.unsafe_shutdowns == spec_u128_at(b, 144)
    &&& r.media_errors == spec_u128_at(b, 160)
    &&& r.num_err_log_entries == spec_u128_at(b, 176)
    &&& r.warning_temp_time == le(b, 192, 4) as u32
    &&& r.critical_temp_time == le(b, 196, 4) as u32
    &&& forall|i: int|
        0 <= i < 8 ==> #[trigger] r.temp_sensors[i] == kelvin_to_celsius(le(b, 200 + 2 * i, 2))
}

fn celsius(k: u64) -> (c: i32)
    requires
        k < 0x1_0000,
    ensures
        c == kelvin_to_celsius(k as nat),
{
    if 1 <= k && k < 0x7FFF {
        (k as i32) - 273
    } else {
        -1000i32
    }
}

/// The 16-byte little-endian value at `offset`, or 0 if the buffer ends first.
pub fn parse_u128_le_at(buf: &[u8], offset: usize) -> (v: u128)
    requires
        offset <= usize::MAX - 16,
    ensures
        v == spec_u128_at(buf@, offset as int),
{
    if offset + 16 > buf.len() {
        return 0;
    }
    read_le_u128(buf, offset)
}

/// Parses an NVMe SMART / health information log page.
pub fn parse_smart_data(buffer: &[u8]) -> (r: Result<NVMeSmartData, String>)
    ensures
        buffer@.len() < 512 ==> (r matches Err(e) && e@ == "NVMe SMART buffer too small"@),
        buffer@.len() >= 512 ==> (r matches Ok(d) && parsed_health_log(d, buffer@)),
{
    if buffer.len() < 512 {
        return Err(string_of("NVMe SMART buffer too small"));
    }
    proof {
        crate::bytes::lemma_le_bound(buffer@, 1, 2);
        crate::bytes::lemma_pow256_8();
    }
    let temp_kelvin = read_le_u64(buffer, 1, 2);
    let temperature = celsius(temp_kelvin);
    let mut temp_sensors: [i32; 8] = [-1000i32; 8];
    let mut i: usize = 0;
    while i < 8
        invariant
            i <= 8,
            buffer@.len() >= 512,
            forall|j: int|
                0 <= j < i ==> #[trigger] temp_sensors[j] == kelvin_to_celsius(
                    le(buffer@, 200 + 2 * j, 2),
                ),
        decreases 8 - i,
    {
        let offset = 200 + i * 2;
        proof {
            crate::bytes::lemma_le_bound(buffer@, offset as int, 2);
            crate::bytes::lemma_pow256_8();
        }
        let k = read_le_u64(buffer, offset, 2);
        temp_sensors[i] = celsius(k);
        i = i + 1;
    }
    proof {
        crate::bytes::lemma_le_bound(buffer@, 192, 4);
        crate::bytes::lemma_le_bound(buffer@, 196, 4);
    }
    let warning_temp_time = read_le_u64(buffer, 192, 4) as u32;
    let critical_temp_time = read_le_u64(buffer, 196, 4) as u32;
    Ok(
        NVMeSmartData {
            critical_warning: buffer[0],
            temperature,
            available_spare: buffer[3],
            available_spare_threshold: buffer[4],
            percentage_used: buffer[5],
            data_units_read: parse_u128_le_at(buffer, 32),
            data_units_written: parse_u128_le_at(buffer, 48),
            host_read_commands: parse_u128_le_at(buffer, 64),
            host_write_commands: parse_u128_le_at(buffer, 80),
            controller_busy_time: parse_u128_le_at(buffer, 96),
            power_cycles: parse_u128_le_at(buffer, 112),
            power_on_hours: parse_u128_le_at(buffer, 128),
            unsafe_shutdowns: parse_u128_le_at(buffer, 144),
            media_errors: parse_u128_le_at(buffer, 160),
            num_err_log_entries: parse_u128_le_at(buffer, 176),
            warning_temp_time,
            critical_temp_time,
            temp_sensors,
        },
    )
}

// ---------------------------------------------------------------------------
// Identify controller
// ---------------------------------------------------------------------------

/// The text `String::from_utf8_lossy` makes of a byte sequence.
pub uninterp spec fn spec_utf8_lossy(b: Seq<u8>) -> Seq<char>;

/// `String::from_utf8_lossy`: valid UTF-8 decodes as such; invalid
/// sequences become U+FFFD (that case is only named, not spelled out).
#[verifier::external_body]
pub(crate) fn utf8_lossy(b: &[u8]) -> (s: String)
    ensures
        s@ == spec_utf8_lossy(b@),
        valid_utf8(b@) ==> s@ == decode_utf8(b@),
{
    String::from_utf8_lossy(b).into_owned()
}

/// Leading and trailing NUL characters removed (`trim_matches('\0')`).
pub open spec fn trim_nul(s: Seq<char>) -> Seq<char>
    decreases s.len(),
{
    if s.len() > 0 && s[0] == '\0' {
        trim_nul(s.drop_first())
    } else if s.len() > 0 && s.last() == '\0' {
        trim_nul(s.drop_last())
    } else {
        s
    }
}

fn trim_nul_chars(s: &[char]) -> (r: Vec<char>)
    ensures
        r@ == trim_nul(s@),
{
    let mut a: usize = 0;
    let mut b: usize = s.len();
    assert(s@.subrange(0, s@.len() as int) =~= s@);
    while a < b && (s[a] == '\0' || s[b - 1] == '\0')
        invariant
            a <= b <= s@.len(),
            trim_nul(s@) == trim_nul(s@.subrange(a as int, b as int)),
        decreases b - a,
    {
        let ghost t = s@.subrange(a as int, b as int);
        if s[a] == '\0' {
            assert(t.drop_first() =~= s@.subrange(a + 1, b as int));
            a = a + 1;
        } else {
            assert(t.drop_last() =~= s@.subrange(a as int, b - 1));
            b = b - 1;
        }
    }
    crate::text::slice_chars(s, a, b)
}

/// The text of a fixed-width ASCII identify field: decoded, NULs and
/// surrounding whitespace removed.
pub open spec fn spec_ascii_field(d: Seq<u8>) -> Seq<char> {
    trim(trim_nul(spec_utf8_lossy(d)))
}

pub fn parse_ascii_field(data: &[u8]) -> (s: String)
    ensures
        s@ == spec_ascii_field(data@),
{
    let raw = utf8_lossy(data);
    let chars = to_chars(raw.as_str());
    let no_nul = trim_nul_chars(chars.as_slice());
    let t = trim_chars(no_nul.as_slice());
    crate::text::from_chars(t.as_slice())
}

/// Serial number (bytes 4..24), model (24..64) and firmware revision
/// (64..72) of an identify-controller page; empty fields when the page is
/// shorter than 72 bytes.
pub fn parse_identify_controller(data: &[u8]) -> (r: NVMeIdentifyInfo)
    ensures
        data@.len() < 72 ==> r.serial_number@.len() == 0 && r.model@.len() == 0
            && r.firmware_version@.len() == 0,
        data@.len() >= 72 ==> r.serial_number@ == spec_ascii_field(data@.subrange(4, 24))
            && r.model@ == spec_ascii_field(data@.subrange(24, 64)) && r.firmware_version@
            == spec_ascii_field(data@.subrange(64, 72)),
{
    if data.len() < 72 {
        return NVMeIdentifyInfo {
            model: String::new(),
            serial_number: String::new(),
            firmware_version: String::new(),
        };
    }
    let serial = copy_range(data, 4, 24);
    let model = copy_range(data, 24, 64);
    let fw = copy_range(data, 64, 72);
    NVMeIdentifyInfo {
        serial_number: parse_ascii_field(serial.as_slice()),
        model: parse_ascii_field(model.as_slice()),
        firmware_version: parse_ascii_field(fw.as_slice()),
    }
}

/// The bytes `d[from..to]`.
pub fn copy_range(d: &[u8], from: usize, to: usize) -> (r: Vec<u8>)
    requires
        from <= to <= d@.len(),
    ensures
        r@ == d@.subrange(from as int, to as int),
{
    let mut r: Vec<u8> = Vec::new();
    let mut i: usize = from;
    while i < to
        invariant
            from <= i <= to <= d@.len(),
            r@ == d@.subrange(from as int, i as int),
        decreases to - i,
    {
        r.push(d[i]);
        i = i + 1;
        assert(r@ =~= d@.subrange(from as int, i as int));
    }
    r
}

// ---------------------------------------------------------------------------
// Choosing among storage-query attempts
// ---------------------------------------------------------------------------

/// A query result counts when its first `n` bytes are not all zero.
pub open spec fn query_ok(r: Result<Vec<u8>, String>, n: nat) -> bool {
    r matches Ok(d) && any_nonzero(prefix(d@, n))
}

/// Message of the last failed query (empty if none failed).
pub open spec fn last_error(rs: Seq<Result<Vec<u8>, String>>) -> Seq<char>
    decreases rs.len(),
{
    if rs.len() == 0 {
        Seq::empty()
    } else {
        match rs.last() {
            Err(e) => e@,
            Ok(_) => last_error(rs.drop_last()),
        }
    }
}

/// Index of the first query that returned data, or the error to report.
fn choose_query(rs: &[Result<Vec<u8>, String>], n: usize, default_msg: &str) -> (r: Result<
    usize,
    String,
>)
    ensures
        match r {
            Ok(i) => i < rs@.len() && query_ok(rs@[i as int], n as nat) && forall|j: int|
                0 <= j < i ==> !query_ok(#[trigger] rs@[j], n as nat),
            Err(e) => (forall|j: int| 0 <= j < rs@.len() ==> !query_ok(#[trigger] rs@[j], n as nat))
                && e@ == (if last_error(rs@).len() == 0 {
                default_msg@
            } else {
                last_error(rs@)
            }),
        },
{
    let mut last_err = String::new();
    let mut i: usize = 0;
    while i < rs.len()
        invariant
            i <= rs@.len(),
            forall|j: int| 0 <= j < i ==> !query_ok(#[trigger] rs@[j], n as nat),
            last_err@ == last_error(rs@.take(i as int)),
        decreases rs@.len() - i,
    {
        assert(rs@.take(i + 1).drop_last() =~= rs@.take(i as int));
        match &rs[i] {
            Ok(d) => {
                if any_nonzero_prefix(d.as_slice(), n) {
                    return Ok(i);
                }
            },
            Err(e) => {
                last_err = e.clone();
            },
        }
        i = i + 1;
    }
    assert(rs@.take(i as int) =~= rs@);
    if last_err.as_str().unicode_len() == 0 {
        Err(string_of(default_msg))
    } else {
        Err(last_err)
    }
}

/// One NVMe drive, with the results of its storage queries in the order
/// they were made: health-log queries (adapter, then device property; sub
/// value 0, then 0xFFFFFFFF) and identify-controller queries.
pub struct NVMeHandle {
    pub physical_drive_id: u32,
    pub smart_log_queries: Vec<Result<Vec<u8>, String>>,
    pub identify_queries: Vec<Result<Vec<u8>, String>>,
}

impl NVMeHandle {
    /// The health log of the first query whose first 512 bytes are not all
    /// zero; else the last query error, or a generic failure.
    pub fn read_smart_data(&self) -> (r: Result<NVMeSmartData, String>)
        requires
            forall|j: int|
                0 <= j < self.smart_log_queries@.len() && query_ok(
                    #[trigger] self.smart_log_queries@[j],
                    512,
                ) ==> self.smart_log_queries@[j]->Ok_0@.len() >= 512,
        ensures
            (exists|i: int|
                0 <= i < self.smart_log_queries@.len() && query_ok(
                    #[trigger] self.smart_log_queries@[i],
                    512,
                )) ==> (r matches Ok(d) && exists|i: int|
                0 <= i < self.smart_log_queries@.len() && query_ok(
                    #[trigger] self.smart_log_queries@[i],
                    512,
                ) && (forall|j: int|
                    0 <= j < i ==> !query_ok(#[trigger] self.smart_log_queries@[j], 512))
                && parsed_health_log(d, self.smart_log_queries@[i]->Ok_0@)),
            (forall|i: int|
                0 <= i < self.smart_log_queries@.len() ==> !query_ok(
                    #[trigger] self.smart_log_queries@[i],
                    512,
                )) ==> (r matches Err(e) && e@ == (if last_error(self.smart_log_queries@).len()
                == 0 {
                "Failed to query NVMe SMART log page"@
            } else {
                last_error(self.smart_log_queries@)
            })),
    {
        match choose_query(
            self.smart_log_queries.as_slice(),
            512,
            "Failed to query NVMe SMART log page",
        ) {
            Ok(i) => {
                let d = match &self.smart_log_queries[i] {
                    Ok(d) => d,
                    Err(_) => {
                        assert(false);
                        return Err(String::new());
                    },
                };
                let b = copy_range(d.as_slice(), 0, 512);
                let r = parse_smart_data(b.as_slice());
                proof {
                    assert(forall|k: int| 0 <= k < 512 ==> b@[k] == d@[k]);
                    lemma_parsed_prefix(r, b@, d@);
                }
                r
            },
            Err(e) => Err(e),
        }
    }

    /// Identify data of the first query that returned a non-zero byte;
    /// else the last query error, or a generic failure.
    pub fn read_identify_controller(&self) -> (r: Result<NVMeIdentifyInfo, String>)
        ensures
            (exists|i: int|
                0 <= i < self.identify_queries@.len() && query_ok(
                    #[trigger] self.identify_queries@[i],
                    usize::MAX as nat,
                )) ==> r is Ok,
            (forall|i: int|
                0 <= i < self.identify_queries@.len() ==> !query_ok(
                    #[trigger] self.identify_queries@[i],
                    usize::MAX as nat,
                )) ==> (r matches Err(e) && e@ == (if last_error(self.identify_queries@).len() == 0 {
                "Failed to query NVMe identify controller data"@
            } else {
                last_error(self.identify_queries@)
            })),
            r matches Ok(info) ==> exists|i: int|
                0 <= i < self.identify_queries@.len() && query_ok(
                    #[trigger] self.identify_queries@[i],
                    usize::MAX as nat,
                ) && (forall|j: int|
                    0 <= j < i ==> !query_ok(#[trigger] self.identify_queries@[j], usize::MAX as nat))
                && identify_of(info, self.identify_queries@[i]->Ok_0@),
    {
        match choose_query(
            self.identify_queries.as_slice(),
            usize::MAX,
            "Failed to query NVMe identify controller data",
        ) {
            Ok(i) => {
                let d = match &self.identify_queries[i] {
                    Ok(d) => d,
                    Err(_) => {
                        assert(false);
                        return Err(String::new());
                    },
                };
                Ok(parse_identify_controller(d.as_slice()))
            },
            Err(e) => Err(e),
        }
    }
}

/// Whether `info` is what `parse_identify_controller` makes of `d`.
pub open spec fn identify_of(info: NVMeIdentifyInfo, d: Seq<u8>) -> bool {
    if d.len() < 72 {
        info.serial_number@.len() == 0 && info.model@.len() == 0
            && info.firmware_version@.len() == 0
    } else {
        info.serial_number@ == spec_ascii_field(d.subrange(4, 24)) && info.model@
            == spec_ascii_field(d.subrange(24, 64)) && info.firmware_version@ == spec_ascii_field(
            d.subrange(64, 72),
        )
    }
}

proof fn lemma_parsed_prefix(r: Result<NVMeSmartData, String>, b: Seq<u8>, d: Seq<u8>)
    requires
        b.len() == 512,
        d.len() >= 512,
        forall|k: int| 0 <= k < 512 ==> b[k] == d[k],
        r matches Ok(x) && parsed_health_log(x, b),
    ensures
        r matches Ok(x) && parsed_health_log(x, d),
{
    assert forall|off: int, n: nat| 0 <= off && off + n <= 512 implies #[trigger] le(b, off, n)
        == le(d, off, n) by {
        lemma_le_agree(b, d, off, n);
    }
    let x = r->Ok_0;
    assert(le(b, 1, 2) == le(d, 1, 2));
    assert(le(b, 32, 16) == le(d, 32, 16));
    assert(le(b, 48, 16) == le(d, 48, 16));
    assert(le(b, 64, 16) == le(d, 64, 16));
    assert(le(b, 80, 16) == le(d, 80, 16));
    assert(le(b, 96, 16) == le(d, 96, 16));
    assert(le(b, 112, 16) == le(d, 112, 16));
    assert(le(b, 128, 16) == le(d, 128, 16));
    assert(le(b, 144, 16) == le(d, 144, 16));
    assert(le(b, 160, 16) == le(d, 160, 16));
    assert(le(b, 176, 16) == le(d, 176, 16));
    assert(le(b, 192, 4) == le(d, 192, 4));
    assert(le(b, 196, 4) == le(d, 196, 4));
    assert forall|i: int| 0 <= i < 8 implies #[trigger] x.temp_sensors[i] == kelvin_to_celsius(
        le(d, 200 + 2 * i, 2),
    ) by {
        assert(le(b, 200 + 2 * i, 2) == le(d, 200 + 2 * i, 2));
    }
}

proof fn lemma_le_agree(b: Seq<u8>, d: Seq<u8>, off: int, n: nat)
    requires
        0 <= off,
        off + n <= b.len(),
        off + n <= d.len(),
        forall|k: int| off <= k < off + n ==> b[k] == d[k],
    ensures
        le(b, off, n) == le(d, off, n),
    decreases n,
{
    if n > 0 {
        lemma_le_agree(b, d, off + 1, (n - 1) as nat);
    }
}

} // verus!

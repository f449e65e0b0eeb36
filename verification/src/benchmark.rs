//! The integer side of the disk benchmark: which run a mode names, where its
//! temporary file goes, how much a full write covers, how scenario lines
//! are read, and the cancellation flag the workers poll.
//!
//! Timing and throughput are measured in floating point and stay with the
//! caller.

use crate::error::AppError;
use crate::text::{
    lines, lines_chars, parse_unsigned, parse_unsigned_chars, push_chars, push_decimal, push_str,
    split_str, split_str_chars, starts_with, string_of, to_chars, trim, trim_chars, chars_eq,
};
use vstd::prelude::*;

verus! {

/// A benchmark request: the drive or folder to test and the mode.
pub struct BenchmarkConfig {
    pub target_path: String,
    /// `quick`, `multithread`, `fullwrite`, `full` or `scenario`.
    pub mode: String,
}

/// The runs a benchmark mode stands for.
#[derive(Debug, Clone, Copy, PartialEq, Eq, Structural)]
pub enum BenchmarkMode {
    Quick,
    MultiThread,
    FullWrite,
    Full,
    Scenario,
}

/// The mode a name selects; any unknown name runs the quick benchmark.
pub open spec fn spec_benchmark_mode(mode: Seq<char>) -> BenchmarkMode {
    if mode == "multithread"@ {
        BenchmarkMode::MultiThread
    } else if mode == "fullwrite"@ {
        BenchmarkMode::FullWrite
    } else if mode == "full"@ {
        BenchmarkMode::Full
    } else if mode == "scenario"@ {
        BenchmarkMode::Scenario
    } else {
        BenchmarkMode::Quick
    }
}

fn is_lit(s: &Vec<char>, lit: &str) -> (r: bool)
    ensures
        r == (s@ == lit@),
{
    chars_eq(s.as_slice(), to_chars(lit).as_slice())
}

/// Reads the benchmark mode of a request.
pub fn benchmark_mode(mode: &str) -> (r: BenchmarkMode)
    ensures
        r == spec_benchmark_mode(mode@),
{
    let m = to_chars(mode);
    if is_lit(&m, "multithread") {
        BenchmarkMode::MultiThread
    } else if is_lit(&m, "fullwrite") {
        BenchmarkMode::FullWrite
    } else if is_lit(&m, "full") {
        BenchmarkMode::Full
    } else if is_lit(&m, "scenario") {
        BenchmarkMode::Scenario
    } else {
        BenchmarkMode::Quick
    }
}

/// `s` without trailing `\` and `/`.
pub open spec fn strip_separators(s: Seq<char>) -> Seq<char>
    decreases s.len(),
{
    if s.len() > 0 && (s.last() == '\\' || s.last() == '/') {
        strip_separators(s.drop_last())
    } else {
        s
    }
}

fn strip_separators_chars(s: &Vec<char>) -> (r: Vec<char>)
    ensures
        r@ == strip_separators(s@),
{
    let mut n = s.len();
    assert(s@.take(n as int) =~= s@);
    while n > 0 && (s[n - 1] == '\\' || s[n - 1] == '/')
        invariant
            n <= s@.len(),
            strip_separators(s@) == strip_separators(s@.take(n as int)),
        decreases n,
    {
        assert(s@.take(n - 1) =~= s@.take(n as int).drop_last());
        n = n - 1;
    }
    let mut r: Vec<char> = Vec::new();
    let mut i: usize = 0;
    while i < n
        invariant
            i <= n <= s@.len(),
            r@ == s@.take(i as int),
        decreases n - i,
    {
        r.push(s[i]);
        i = i + 1;
        assert(r@ =~= s@.take(i as int));
    }
    r
}

/// The temporary file a benchmark writes: `wtg_bench.bin` in the target.
pub fn benchmark_temp_file(target_path: &str) -> (r: String)
    ensures
        r@ == strip_separators(target_path@) + "\\wtg_bench.bin"@,
{
    let base = strip_separators_chars(&to_chars(target_path));
    let mut r = String::new();
    push_chars(&mut r, base.as_slice());
    push_str(&mut r, "\\wtg_bench.bin");
    r
}

/// The root whose free space a full write measures.
pub fn benchmark_free_space_root(target_path: &str) -> (r: String)
    ensures
        r@ == strip_separators(target_path@) + "\\"@,
{
    let base = strip_separators_chars(&to_chars(target_path));
    let mut r = String::new();
    push_chars(&mut r, base.as_slice());
    push_str(&mut r, "\\");
    r
}

/// The temporary file of one worker of the multi-thread run.
pub fn worker_file(path: &str, idx: u32) -> (r: String)
    ensures
        r@ == path@ + ".mt"@ + crate::text::decimal(idx as nat),
{
    let mut r = string_of(path);
    push_str(&mut r, ".mt");
    push_decimal(&mut r, idx as u64);
    r
}

pub const MIB: u64 = 1048576;

/// The number of bytes a full write covers: the free space less 100 MiB,
/// rounded down to whole 64 MiB blocks; less than one block is refused.
pub open spec fn spec_full_write_bytes(free_bytes: u64) -> int {
    let target: int = if free_bytes > 100 * MIB {
        free_bytes - 100 * MIB
    } else {
        0
    };
    (target / (64 * MIB as int)) * (64 * MIB as int)
}

pub fn full_write_target(free_bytes: u64) -> (r: Result<u64, AppError>)
    ensures
        spec_full_write_bytes(free_bytes) >= 64 * MIB ==> r == Ok::<u64, AppError>(
            spec_full_write_bytes(free_bytes) as u64,
        ),
        spec_full_write_bytes(free_bytes) < 64 * MIB ==> (r matches Err(
            AppError::InvalidParameter(m),
        ) && m@ == "Not enough free space for full benchmark (needs at least ~64MB)"@),
{
    let target: u64 = if free_bytes > 100 * MIB {
        free_bytes - 100 * MIB
    } else {
        0
    };
    let blocks = target / (64 * MIB);
    assert(blocks * 67108864 <= target) by (nonlinear_arith)
        requires
            blocks == target / 67108864,
    ;
    let aligned = blocks * (64 * MIB);
    if aligned < 64 * MIB {
        return Err(AppError::InvalidParameter(
            string_of("Not enough free space for full benchmark (needs at least ~64MB)"),
        ));
    }
    Ok(aligned)
}

/// The steps of a full write: one per GiB, at least one.
pub fn full_write_steps(target_bytes: u64) -> (r: u64)
    ensures
        r == (if target_bytes / 1073741824 > 0 {
            target_bytes / 1073741824
        } else {
            1
        }),
{
    let s = target_bytes / (1024 * MIB);
    if s > 0 {
        s
    } else {
        1
    }
}

// ---------------------------------------------------------------------------
// Scenario files
// ---------------------------------------------------------------------------

/// The cells of a scenario line, trimmed: blank and `#` lines and lines of
/// fewer than 13 cells are skipped.
pub open spec fn scenario_cells(raw: Seq<char>) -> Option<Seq<Seq<char>>> {
    let line = trim(raw);
    let cells = split_str(line, ","@).map_values(|c: Seq<char>| trim(c));
    if line.len() == 0 || starts_with(line, "#"@) || cells.len() < 13 {
        None
    } else {
        Some(cells)
    }
}

/// Splits one line of a scenario file into its trimmed cells.
pub fn scenario_line_cells(raw: &str) -> (r: Option<Vec<Vec<char>>>)
    ensures
        scenario_cells(raw@) matches Some(cs) ==> (r matches Some(v) && v@.len() == cs.len()
            && forall|k: int| 0 <= k < cs.len() ==> (#[trigger] v@[k])@ == cs[k]),
        scenario_cells(raw@) is None ==> r is None,
{
    proof {
        reveal_strlit(",");
    }
    let line = trim_chars(to_chars(raw).as_slice());
    let hash = to_chars("#");
    let comma = to_chars(",");
    let parts = split_str_chars(line.as_slice(), comma.as_slice());
    let ghost sp = split_str(line@, ","@);
    let mut cells: Vec<Vec<char>> = Vec::new();
    let mut i: usize = 0;
    while i < parts.len()
        invariant
            parts@.len() == sp.len(),
            forall|k: int| 0 <= k < parts@.len() ==> (#[trigger] parts@[k])@ == sp[k],
            i <= parts@.len(),
            cells@.len() == i,
            forall|k: int| 0 <= k < i ==> (#[trigger] cells@[k])@ == trim(sp[k]),
        decreases parts@.len() - i,
    {
        cells.push(trim_chars(parts[i].as_slice()));
        i = i + 1;
    }
    if line.len() == 0 || crate::text::starts_with_chars(line.as_slice(), hash.as_slice())
        || cells.len() < 13 {
        return None;
    }
    Some(cells)
}

pub const BLOCK_SIZE: u64 = 4096;

pub const MAX_IO_BYTES: u64 = 16777216;

/// The parsed cell, or `default` where it is not a number (`parse` with a
/// fallback).
pub open spec fn parsed_or(cell: Seq<char>, default: nat) -> nat {
    match parse_unsigned(cell, u64::MAX as nat) {
        Some(v) => v,
        None => default,
    }
}

/// An I/O size: parsed (4 KiB if unreadable), held between 4 KiB and
/// 16 MiB, and rounded down to whole 4 KiB blocks.
pub open spec fn spec_io_size(cell: Seq<char>) -> nat {
    let p = parsed_or(cell, 4096);
    let c: nat = if p < 4096 {
        4096
    } else if p > 16777216 {
        16777216
    } else {
        p
    };
    (c - c % 4096) as nat
}

/// Reads one I/O size cell of a scenario line.
pub fn scenario_io_size(cell: &Vec<char>) -> (r: u64)
    ensures
        r == spec_io_size(cell@),
{
    let p: u64 = match parse_unsigned_chars(cell.as_slice(), u64::MAX) {
        Some(v) => v,
        None => 4096,
    };
    let c: u64 = if p < BLOCK_SIZE {
        BLOCK_SIZE
    } else if p > MAX_IO_BYTES {
        MAX_IO_BYTES
    } else {
        p
    };
    c - c % BLOCK_SIZE
}

/// The worker count of a scenario line: parsed (1 if unreadable), held
/// between 1 and 32.
pub open spec fn spec_scenario_threads(cell: Seq<char>) -> nat {
    let p = parsed_or(cell, 1);
    if p < 1 {
        1
    } else if p > 32 {
        32
    } else {
        p
    }
}

pub fn scenario_threads(cell: &Vec<char>) -> (r: u64)
    ensures
        r == spec_scenario_threads(cell@),
{
    let p: u64 = match parse_unsigned_chars(cell.as_slice(), u64::MAX) {
        Some(v) => v,
        None => 1,
    };
    if p < 1 {
        1
    } else if p > 32 {
        32
    } else {
        p
    }
}

// ---------------------------------------------------------------------------
// Cancellation
// ---------------------------------------------------------------------------

/// Whether the user asked the running benchmark to stop.
pub struct BenchmarkCancel {
    pub cancelled: bool,
}

pub open spec fn cancelled_message() -> Seq<char> {
    "Benchmark cancelled by user"@
}

impl BenchmarkCancel {
    pub fn new() -> (r: BenchmarkCancel)
        ensures
            !r.cancelled,
    {
        BenchmarkCancel { cancelled: false }
    }

    /// Asks the running benchmark to stop.
    pub fn request_cancel(&mut self)
        ensures
            final(self).cancelled,
    {
        self.cancelled = true;
    }

    /// Resets the flag when a benchmark starts or ends.
    pub fn clear_cancel_flag(&mut self)
        ensures
            !final(self).cancelled,
    {
        self.cancelled = false;
    }

    /// Whether cancellation was asked for.
    pub fn is_cancelled(&self) -> (r: bool)
        ensures
            r == self.cancelled,
    {
        self.cancelled
    }

    /// Fails once cancellation was asked for.
    pub fn ensure_not_cancelled(&self) -> (r: Result<(), AppError>)
        ensures
            !self.cancelled ==> r is Ok,
            self.cancelled ==> (r matches Err(AppError::SystemError(m)) && m@ == cancelled_message()),
    {
        if self.cancelled {
            Err(AppError::SystemError(string_of("Benchmark cancelled by user")))
        } else {
            Ok(())
        }
    }
}

/// The benchmark where the platform is not Windows.
pub fn benchmark_unsupported() -> (r: AppError)
    ensures
        r matches AppError::Unsupported(m) && m@ == "Benchmark only implemented on Windows"@,
{
    AppError::Unsupported(string_of("Benchmark only implemented on Windows"))
}

} // verus!

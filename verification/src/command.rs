//! What the library makes of an external command's result: how its output
//! bytes are decoded, when it counts as failed, and what the failure says.

use crate::error::AppError;
use crate::nvme::{spec_utf8_lossy, utf8_lossy};
use crate::text::{decimal, push_decimal, push_str, string_of, to_chars, trim, trim_chars};
use vstd::prelude::*;
use vstd::utf8::{decode_utf8, valid_utf8};

verus! {

/// `std::str::from_utf8`: the text of valid UTF-8, nothing otherwise.
#[verifier::external_body]
fn utf8_strict(b: &[u8]) -> (r: Option<String>)
    ensures
        r is Some <==> valid_utf8(b@),
        r is Some ==> r->0@ == decode_utf8(b@),
{
    match std::str::from_utf8(b) {
        Ok(s) => Some(s.to_string()),
        Err(_) => None,
    }
}

/// What `encoding_rs::GBK.decode` gives for the bytes (after BOM sniffing,
/// malformed sequences replaced).
pub uninterp spec fn gbk_decoded(b: Seq<u8>) -> Seq<char>;

/// `encoding_rs::GBK.decode`, the decoded text only.
#[verifier::external_body]
fn gbk_decode(b: &[u8]) -> (r: String)
    requires
        b@.len() < usize::MAX / 4,
    ensures
        r@ == gbk_decoded(b@),
{
    let (decoded, _, _) = encoding_rs::GBK.decode(b);
    decoded.into_owned()
}

/// The text of command output: UTF-8 where the bytes are valid UTF-8,
/// otherwise the system's legacy code page (GBK on Windows) or a lossy
/// UTF-8 decoding elsewhere.
pub open spec fn spec_decode_output(b: Seq<u8>, on_windows: bool) -> Seq<char> {
    if valid_utf8(b) {
        decode_utf8(b)
    } else if on_windows {
        gbk_decoded(b)
    } else {
        spec_utf8_lossy(b)
    }
}

/// Decodes command output.
pub fn decode_output(bytes: &[u8], on_windows: bool) -> (r: String)
    requires
        bytes@.len() < usize::MAX / 4,
    ensures
        r@ == spec_decode_output(bytes@, on_windows),
{
    match utf8_strict(bytes) {
        Some(s) => s,
        None => {
            if on_windows {
                gbk_decode(bytes)
            } else {
                utf8_lossy(bytes)
            }
        },
    }
}

/// Runs external programs; the running itself is the caller's.
pub struct CommandExecutor;

/// What a failed command reports: its standard error, or its standard
/// output where standard error is blank.
pub open spec fn failure_text(cmd: Seq<char>, stdout: Seq<char>, stderr: Seq<char>) -> Seq<char> {
    cmd + ": "@ + (if trim(stderr).len() == 0 {
        stdout
    } else {
        stderr
    })
}

impl CommandExecutor {
    /// The error of a command that exited unsuccessfully.
    pub fn failure(cmd: &str, stdout: &str, stderr: &str) -> (r: AppError)
        ensures
            r matches AppError::CommandFailed(m) && m@ == failure_text(cmd@, stdout@, stderr@),
    {
        let mut m = string_of(cmd);
        push_str(&mut m, ": ");
        let t = trim_chars(to_chars(stderr).as_slice());
        if t.len() == 0 {
            push_str(&mut m, stdout);
        } else {
            push_str(&mut m, stderr);
        }
        AppError::CommandFailed(m)
    }

    /// The result of `execute`: the decoded standard output on success,
    /// else the failure naming the command.
    pub fn outcome(
        cmd: &str,
        success: bool,
        stdout: &[u8],
        stderr: &[u8],
        on_windows: bool,
    ) -> (r: Result<String, AppError>)
        requires
            stdout@.len() < usize::MAX / 4,
            stderr@.len() < usize::MAX / 4,
        ensures
            success ==> (r matches Ok(s) && s@ == spec_decode_output(stdout@, on_windows)),
            !success ==> (r matches Err(AppError::CommandFailed(m)) && m@ == failure_text(
                cmd@,
                spec_decode_output(stdout@, on_windows),
                spec_decode_output(stderr@, on_windows),
            )),
    {
        let out = decode_output(stdout, on_windows);
        let err = decode_output(stderr, on_windows);
        if !success {
            return Err(CommandExecutor::failure(cmd, out.as_str(), err.as_str()));
        }
        Ok(out)
    }

    /// The result of `execute_allow_fail`: standard output followed by
    /// standard error, whatever the exit status.
    pub fn allow_fail_output(stdout: &[u8], stderr: &[u8], on_windows: bool) -> (r: String)
        requires
            stdout@.len() < usize::MAX / 4,
            stderr@.len() < usize::MAX / 4,
        ensures
            r@ == spec_decode_output(stdout@, on_windows) + spec_decode_output(stderr@, on_windows),
    {
        let mut out = decode_output(stdout, on_windows);
        let err = decode_output(stderr, on_windows);
        push_str(&mut out, err.as_str());
        out
    }
}

/// The result of a diskpart run: its output, or its standard error as a
/// disk error.
pub fn diskpart_outcome(success: bool, stdout: &[u8], stderr: &[u8]) -> (r: Result<
    String,
    AppError,
>)
    requires
        stdout@.len() < usize::MAX / 4,
        stderr@.len() < usize::MAX / 4,
    ensures
        success ==> (r matches Ok(s) && s@ == spec_decode_output(stdout@, true)),
        !success ==> (r matches Err(AppError::DiskError(m)) && m@ == "Diskpart failed: "@
            + spec_decode_output(stderr@, true)),
{
    let out = decode_output(stdout, true);
    let err = decode_output(stderr, true);
    if !success {
        let mut m = string_of("Diskpart failed: ");
        push_str(&mut m, err.as_str());
        return Err(AppError::DiskError(m));
    }
    Ok(out)
}

/// Running a diskpart script where the platform is not Windows.
pub fn run_diskpart_script(_script: &str) -> (r: Result<String, AppError>)
    ensures
        r matches Err(AppError::SystemError(m)) && m@ == "Diskpart is only available on Windows"@,
{
    Err(AppError::SystemError(string_of("Diskpart is only available on Windows")))
}

/// Running a diskpart script with its output kept, where the platform is
/// not Windows.
pub fn run_diskpart_script_with_output(_script: &str) -> (r: Result<(String, String), AppError>)
    ensures
        r matches Err(AppError::SystemError(m)) && m@ == "Diskpart is only available on Windows"@,
{
    Err(AppError::SystemError(string_of("Diskpart is only available on Windows")))
}

/// The execution state that keeps the system awake while writing
/// (`ES_CONTINUOUS | ES_SYSTEM_REQUIRED`).
pub fn prevent_sleep() -> (flags: u32)
    ensures
        flags == 0x8000_0001u32,
{
    assert(0x8000_0000u32 | 0x0000_0001u32 == 0x8000_0001u32) by (bit_vector);
    0x8000_0000u32 | 0x0000_0001u32
}

/// The execution state that lets the system sleep again (`ES_CONTINUOUS`).
pub fn restore_sleep() -> (flags: u32)
    ensures
        flags == 0x8000_0000u32,
{
    0x8000_0000u32
}

/// The name of a session's log file.
pub fn log_file_name(timestamp: &str, pid: u32) -> (r: String)
    ensures
        r@ == "wtga_"@ + timestamp@ + "_pid"@ + decimal(pid as nat) + ".log"@,
{
    let mut r = string_of("wtga_");
    push_str(&mut r, timestamp);
    push_str(&mut r, "_pid");
    push_decimal(&mut r, pid as u64);
    push_str(&mut r, ".log");
    r
}

/// The name of a temporary diskpart script file.
pub fn diskpart_script_file_name(id: &str) -> (r: String)
    ensures
        r@ == "wtga_dp_"@ + id@ + ".txt"@,
{
    let mut r = string_of("wtga_dp_");
    push_str(&mut r, id);
    push_str(&mut r, ".txt");
    r
}

} // verus!

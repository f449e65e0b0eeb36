//! Small string utilities shared across the services.

use crate::models::WriteStatus;
use crate::text::{chars_eq, to_chars};
use vstd::prelude::*;

verus! {

/// First character of a drive specification (e.g. "E" from "E:").
/// The empty string gives the empty string.
pub fn first_char(s: &str) -> (r: &str)
    ensures
        r@ == (if s@.len() == 0 {
            s@
        } else {
            s@.subrange(0, 1)
        }),
{
    if s.unicode_len() == 0 {
        s
    } else {
        s.substring_char(0, 1)
    }
}

/// First two characters of a drive path (e.g. "E:" from "E:\\"); a string of
/// fewer than two characters is returned whole.
pub fn first_two_chars(s: &str) -> (r: &str)
    ensures
        r@ == (if s@.len() <= 2 {
            s@
        } else {
            s@.subrange(0, 2)
        }),
{
    let n = s.unicode_len();
    if n <= 2 {
        s
    } else {
        s.substring_char(0, 2)
    }
}

/// Equality of two string slices.
pub fn str_eq(a: &str, b: &str) -> (r: bool)
    ensures
        r == (a@ == b@),
{
    let x = to_chars(a);
    let y = to_chars(b);
    chars_eq(x.as_slice(), y.as_slice())
}

/// The status a progress report names; unknown names mean `Idle`.
pub open spec fn spec_status_from_name(name: Seq<char>) -> WriteStatus {
    if name == "preparing"@ {
        WriteStatus::Preparing
    } else if name == "partitioning"@ {
        WriteStatus::Partitioning
    } else if name == "applyingimage"@ {
        WriteStatus::ApplyingImage
    } else if name == "writingbootfiles"@ {
        WriteStatus::WritingBootFiles
    } else if name == "fixingbcd"@ {
        WriteStatus::FixingBcd
    } else if name == "copyingvhd"@ {
        WriteStatus::CopyingVhd
    } else if name == "applyingextras"@ {
        WriteStatus::ApplyingExtras
    } else if name == "verifying"@ {
        WriteStatus::Verifying
    } else if name == "completed"@ {
        WriteStatus::Completed
    } else if name == "failed"@ {
        WriteStatus::Failed
    } else if name == "cancelled"@ {
        WriteStatus::Cancelled
    } else {
        WriteStatus::Idle
    }
}

/// Maps the status name of a progress report to its `WriteStatus`.
pub fn status_from_name(name: &str) -> (r: WriteStatus)
    ensures
        r == spec_status_from_name(name@),
{
    if str_eq(name, "preparing") {
        WriteStatus::Preparing
    } else if str_eq(name, "partitioning") {
        WriteStatus::Partitioning
    } else if str_eq(name, "applyingimage") {
        WriteStatus::ApplyingImage
    } else if str_eq(name, "writingbootfiles") {
        WriteStatus::WritingBootFiles
    } else if str_eq(name, "fixingbcd") {
        WriteStatus::FixingBcd
    } else if str_eq(name, "copyingvhd") {
        WriteStatus::CopyingVhd
    } else if str_eq(name, "applyingextras") {
        WriteStatus::ApplyingExtras
    } else if str_eq(name, "verifying") {
        WriteStatus::Verifying
    } else if str_eq(name, "completed") {
        WriteStatus::Completed
    } else if str_eq(name, "failed") {
        WriteStatus::Failed
    } else if str_eq(name, "cancelled") {
        WriteStatus::Cancelled
    } else {
        WriteStatus::Idle
    }
}

} // verus!

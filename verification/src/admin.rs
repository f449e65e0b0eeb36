//! The macOS administrator session: how a privileged shell command is
//! wrapped for `osascript`, how its failure text is cleaned and classified,
//! and what the session remembers between calls.

use crate::error::AppError;
use crate::nvme::{spec_utf8_lossy, utf8_lossy};
use crate::text::{
    ascii_lower, contains, contains_chars, join, join_chars, lines, lines_chars, lower_chars,
    push_chars, push_str, string_of, to_chars, trim, trim_chars,
};
use vstd::prelude::*;

verus! {

/// What the front end is told about the administrator session.
pub struct MacosAdminSessionStatus {
    pub supported: bool,
    pub authorized: bool,
    pub authorized_at_unix: Option<u64>,
    pub last_error: Option<String>,
}

/// What the session remembers: whether a privileged command has succeeded,
/// when (in seconds since the Unix epoch, where the clock allows), and the
/// cleaned text of the last failure.
pub struct MacosAdminSessionState {
    pub authorized: bool,
    pub authorized_at_unix: Option<u64>,
    pub last_error: Option<String>,
}

fn copy_opt(o: &Option<String>) -> (r: Option<String>)
    ensures
        r is Some <==> o is Some,
        r is Some ==> r->0@ == o->0@,
{
    match o {
        Some(s) => Some(string_of(s.as_str())),
        None => None,
    }
}

impl MacosAdminSessionState {
    /// A session in which nothing has been authorized yet.
    pub fn new() -> (r: MacosAdminSessionState)
        ensures
            !r.authorized,
            r.authorized_at_unix is None,
            r.last_error is None,
    {
        MacosAdminSessionState { authorized: false, authorized_at_unix: None, last_error: None }
    }

    /// Records a successful privileged command at `now_unix` and clears the
    /// last failure.
    pub fn set_authorized(&mut self, now_unix: Option<u64>)
        ensures
            final(self).authorized,
            final(self).authorized_at_unix == now_unix,
            final(self).last_error is None,
    {
        self.authorized = true;
        self.authorized_at_unix = now_unix;
        self.last_error = None;
    }

    /// Records the text of a failed privileged command.
    pub fn set_last_error(&mut self, message: String)
        ensures
            final(self).authorized == old(self).authorized,
            final(self).authorized_at_unix == old(self).authorized_at_unix,
            final(self).last_error == Some(message),
    {
        self.last_error = Some(message);
    }

    /// The status shown to the front end; off macOS the session is reported
    /// as unsupported and never authorized.
    pub fn state_snapshot(&self, on_macos: bool) -> (r: MacosAdminSessionStatus)
        ensures
            r.supported == on_macos,
            r.authorized == (on_macos && self.authorized),
            r.authorized_at_unix == (if on_macos && self.authorized {
                self.authorized_at_unix
            } else {
                None
            }),
            r.last_error is Some <==> self.last_error is Some,
            r.last_error is Some ==> r.last_error->0@ == self.last_error->0@,
    {
        if on_macos {
            MacosAdminSessionStatus {
                supported: true,
                authorized: self.authorized,
                authorized_at_unix: if self.authorized {
                    self.authorized_at_unix
                } else {
                    None
                },
                last_error: copy_opt(&self.last_error),
            }
        } else {
            MacosAdminSessionStatus {
                supported: false,
                authorized: false,
                authorized_at_unix: None,
                last_error: copy_opt(&self.last_error),
            }
        }
    }
}

/// The session status as the front end asks for it.
pub fn get_macos_admin_session_status(state: &MacosAdminSessionState, on_macos: bool) -> (r:
    MacosAdminSessionStatus)
    ensures
        r.supported == on_macos,
        r.authorized == (on_macos && state.authorized),
        r.authorized_at_unix == (if on_macos && state.authorized {
            state.authorized_at_unix
        } else {
            None
        }),
        r.last_error is Some <==> state.last_error is Some,
        r.last_error is Some ==> r.last_error->0@ == state.last_error->0@,
{
    state.state_snapshot(on_macos)
}

// ---------------------------------------------------------------------------
// Wrapping a script for osascript
// ---------------------------------------------------------------------------

/// How one character is written inside an AppleScript string literal.
pub open spec fn applescript_char(c: char) -> Seq<char> {
    if c == '\n' {
        "; "@
    } else if c == '\\' {
        "\\\\"@
    } else if c == '"' {
        "\\\""@
    } else {
        seq![c]
    }
}

/// Line feeds become `; `, backslashes and double quotes are escaped.
pub open spec fn applescript_escaped(s: Seq<char>) -> Seq<char>
    decreases s.len(),
{
    if s.len() == 0 {
        s
    } else {
        applescript_escaped(s.drop_last()) + applescript_char(s.last())
    }
}

/// Escapes a script so that it can stand inside an AppleScript string.
pub fn escape_applescript(raw: &str) -> (r: String)
    ensures
        r@ == applescript_escaped(raw@),
{
    let cs = to_chars(raw);
    let mut r = String::new();
    let mut i: usize = 0;
    while i < cs.len()
        invariant
            i <= cs@.len(),
            cs@ == raw@,
            r@ == applescript_escaped(cs@.take(i as int)),
        decreases cs@.len() - i,
    {
        let c = cs[i];
        assert(cs@.take(i + 1).drop_last() =~= cs@.take(i as int));
        if c == '\n' {
            push_str(&mut r, "; ");
        } else if c == '\\' {
            push_str(&mut r, "\\\\");
        } else if c == '"' {
            push_str(&mut r, "\\\"");
        } else {
            let one = [c];
            push_chars(&mut r, &one);
            assert(one@ =~= seq![c]);
        }
        i = i + 1;
    }
    assert(cs@.take(i as int) =~= cs@);
    r
}

/// The environment a privileged script runs in.
pub open spec fn privileged_env_prefix() -> Seq<char> {
    "export HOME=/var/root; export TMPDIR=/tmp; export PATH='/opt/homebrew/bin:/opt/homebrew/sbin:/usr/local/bin:/usr/local/sbin:/usr/bin:/bin:/usr/sbin:/sbin:$PATH'; cd /tmp || true; "@
}

/// The script preceded by the environment settings of a privileged run.
pub fn with_macos_privileged_env(script: &str) -> (r: String)
    ensures
        r@ == privileged_env_prefix() + script@,
{
    let mut r = string_of(
        "export HOME=/var/root; export TMPDIR=/tmp; export PATH='/opt/homebrew/bin:/opt/homebrew/sbin:/usr/local/bin:/usr/local/sbin:/usr/bin:/bin:/usr/sbin:/sbin:$PATH'; cd /tmp || true; ",
    );
    push_str(&mut r, script);
    r
}

/// The AppleScript that runs `script` with administrator privileges.
pub fn privileged_apple_script(script: &str) -> (r: String)
    ensures
        r@ == "do shell script \""@ + applescript_escaped(privileged_env_prefix() + script@)
            + "\" with administrator privileges"@,
{
    let prepared = with_macos_privileged_env(script);
    let escaped = escape_applescript(prepared.as_str());
    let mut r = string_of("do shell script \"");
    push_str(&mut r, escaped.as_str());
    push_str(&mut r, "\" with administrator privileges");
    r
}

// ---------------------------------------------------------------------------
// Failure text
// ---------------------------------------------------------------------------

/// Noise that macOS prints when the working directory is unreadable.
pub open spec fn shell_init_noise() -> Seq<char> {
    "shell-init: error retrieving current directory"@
}

pub open spec fn chdir_noise() -> Seq<char> {
    "chdir: error retrieving current directory"@
}

/// A trimmed line worth keeping in an error report.
pub open spec fn keep_detail_line(l: Seq<char>) -> bool {
    l.len() > 0 && !contains(l, shell_init_noise()) && !contains(l, chdir_noise())
}

/// The trimmed lines that are kept, in order.
pub open spec fn kept_lines(ls: Seq<Seq<char>>) -> Seq<Seq<char>>
    decreases ls.len(),
{
    if ls.len() == 0 {
        Seq::<Seq<char>>::empty()
    } else {
        let p = kept_lines(ls.drop_last());
        let t = trim(ls.last());
        if keep_detail_line(t) {
            p.push(t)
        } else {
            p
        }
    }
}

/// The failure text without blank lines and working-directory noise; if
/// nothing is left, the whole text trimmed.
pub open spec fn sanitized_detail(d: Seq<char>) -> Seq<char> {
    let k = kept_lines(lines(d));
    if k.len() == 0 {
        trim(d)
    } else {
        join(k, "\n"@)
    }
}

/// Cleans the failure text of a privileged command.
pub fn sanitize_admin_detail(detail: &str) -> (r: String)
    ensures
        r@ == sanitized_detail(detail@),
{
    let cs = to_chars(detail);
    let ls = lines_chars(cs.as_slice());
    let shell_init = to_chars("shell-init: error retrieving current directory");
    let chdir = to_chars("chdir: error retrieving current directory");
    let ghost all = lines(detail@);
    let mut kept: Vec<Vec<char>> = Vec::new();
    let mut i: usize = 0;
    while i < ls.len()
        invariant
            cs@ == detail@,
            all == lines(detail@),
            ls@.len() == all.len(),
            forall|k: int| 0 <= k < ls@.len() ==> (#[trigger] ls@[k])@ == all[k],
            shell_init@ == shell_init_noise(),
            chdir@ == chdir_noise(),
            i <= ls@.len(),
            kept@.map_values(|v: Vec<char>| v@) == kept_lines(all.take(i as int)),
        decreases ls@.len() - i,
    {
        let t = trim_chars(ls[i].as_slice());
        assert(all.take(i + 1).drop_last() =~= all.take(i as int));
        assert(all.take(i + 1).last() == all[i as int]);
        let keep = t.len() > 0 && !contains_chars(t.as_slice(), shell_init.as_slice())
            && !contains_chars(t.as_slice(), chdir.as_slice());
        let ghost before = kept@;
        if keep {
            kept.push(t);
            assert(kept@.map_values(|v: Vec<char>| v@) =~= before.map_values(|v: Vec<char>| v@).push(
                trim(all[i as int]),
            ));
        }
        i = i + 1;
    }
    assert(all.take(i as int) =~= all);
    if kept.len() == 0 {
        let t = trim_chars(cs.as_slice());
        let mut r = String::new();
        push_chars(&mut r, t.as_slice());
        assert(r@ =~= trim(detail@));
        r
    } else {
        join_chars(&kept, "\n")
    }
}

/// The first `max_chars` characters, followed by `...` when text was cut.
pub open spec fn clipped(d: Seq<char>, max_chars: nat) -> Seq<char> {
    if d.len() > max_chars {
        d.take(max_chars as int) + "..."@
    } else {
        d
    }
}

/// Shortens a failure text to at most `max_chars` characters plus `...`.
pub fn clip_detail(detail: &str, max_chars: usize) -> (r: String)
    ensures
        r@ == clipped(detail@, max_chars as nat),
{
    let cs = to_chars(detail);
    let mut r = String::new();
    let mut i: usize = 0;
    while i < cs.len()
        invariant
            cs@ == detail@,
            i <= cs@.len(),
            i <= max_chars,
            r@ == cs@.take(i as int),
        decreases cs@.len() - i,
    {
        if i >= max_chars {
            push_str(&mut r, "...");
            return r;
        }
        let one = [cs[i]];
        push_chars(&mut r, &one);
        i = i + 1;
        assert(r@ =~= cs@.take(i as int));
    }
    assert(cs@.take(i as int) =~= cs@);
    r
}

pub open spec fn unsafe_state_message() -> Seq<char> {
    "Target NTFS volume is still in an unsafe state after force remount attempts. Fully shut down Windows (disable Fast Startup/hibernation), reconnect the disk, and retry. If needed, run ntfsfix on the target partition from terminal. Detail: "@
}

pub open spec fn full_disk_access_message() -> Seq<char> {
    "Cannot access raw disk device from this app session. Please grant Full Disk Access to this app in macOS Privacy & Security, then retry."@
}

/// The volume is held by a hibernated or fast-started Windows.
pub open spec fn mentions_unsafe_state(lower: Seq<char>) -> bool {
    contains(lower, "unsafe state"@) || contains(lower, "fast restarting"@) || contains(
        lower,
        "hibernation"@,
    )
}

/// The raw device could not be opened for lack of permission.
pub open spec fn mentions_raw_device_denied(lower: Seq<char>) -> bool {
    (contains(lower, "error opening '/dev/"@) || contains(lower, "could not open /dev/"@))
        && contains(lower, "operation not permitted"@)
}

/// The error a failed privileged command is reported as.
pub open spec fn is_privileged_error(e: AppError, detail: Seq<char>) -> bool {
    let clean = sanitized_detail(detail);
    let lower = ascii_lower(clean);
    if mentions_unsafe_state(lower) {
        e matches AppError::DiskError(m) && m@ == unsafe_state_message() + clipped(clean, 2000)
    } else if mentions_raw_device_denied(lower) {
        e matches AppError::DiskError(m) && m@ == full_disk_access_message()
    } else {
        e matches AppError::SystemError(m) && m@ == "Administrator command failed: "@ + clean
    }
}

fn lit_contains(hay: &Vec<char>, lit: &str) -> (r: bool)
    ensures
        r == contains(hay@, lit@),
{
    let p = to_chars(lit);
    contains_chars(hay.as_slice(), p.as_slice())
}

/// Classifies the failure text of a privileged command.
pub fn map_privileged_error(detail: &str) -> (r: AppError)
    ensures
        is_privileged_error(r, detail@),
{
    let clean = sanitize_admin_detail(detail);
    let cc = to_chars(clean.as_str());
    let lower = lower_chars(cc.as_slice());
    let unsafe_state = lit_contains(&lower, "unsafe state") || lit_contains(
        &lower,
        "fast restarting",
    ) || lit_contains(&lower, "hibernation");
    if unsafe_state {
        let mut m = string_of(
            "Target NTFS volume is still in an unsafe state after force remount attempts. Fully shut down Windows (disable Fast Startup/hibernation), reconnect the disk, and retry. If needed, run ntfsfix on the target partition from terminal. Detail: ",
        );
        let clip = clip_detail(clean.as_str(), 2000);
        push_str(&mut m, clip.as_str());
        return AppError::DiskError(m);
    }
    let denied = (lit_contains(&lower, "error opening '/dev/") || lit_contains(
        &lower,
        "could not open /dev/",
    )) && lit_contains(&lower, "operation not permitted");
    if denied {
        return AppError::DiskError(
            string_of(
                "Cannot access raw disk device from this app session. Please grant Full Disk Access to this app in macOS Privacy & Security, then retry.",
            ),
        );
    }
    let mut m = string_of("Administrator command failed: ");
    push_str(&mut m, clean.as_str());
    AppError::SystemError(m)
}

/// The user dismissed or was refused the password prompt.
pub open spec fn spec_user_cancelled(detail: Seq<char>) -> bool {
    let lower = ascii_lower(detail);
    contains(lower, "user canceled"@) || contains(lower, "user cancelled"@) || contains(
        lower,
        "not authorized"@,
    )
}

/// Whether a failure text says that the user cancelled authorization.
pub fn is_user_cancelled_error(detail: &str) -> (r: bool)
    ensures
        r == spec_user_cancelled(detail@),
{
    let cs = to_chars(detail);
    let lower = lower_chars(cs.as_slice());
    lit_contains(&lower, "user canceled") || lit_contains(&lower, "user cancelled")
        || lit_contains(&lower, "not authorized")
}

/// Command output as text: lossily decoded, then trimmed.
pub open spec fn output_text(b: Seq<u8>) -> Seq<char> {
    trim(spec_utf8_lossy(b))
}

fn to_text(b: &[u8]) -> (r: String)
    ensures
        r@ == output_text(b@),
{
    let s = utf8_lossy(b);
    let t = trim_chars(to_chars(s.as_str()).as_slice());
    let mut r = String::new();
    push_chars(&mut r, t.as_slice());
    assert(r@ =~= output_text(b@));
    r
}

/// The failure text of a privileged run: its standard error, or its
/// standard output when nothing was written to standard error.
pub open spec fn failure_detail(stdout: Seq<u8>, stderr: Seq<u8>) -> Seq<char> {
    let err = output_text(stderr);
    sanitized_detail(if err.len() == 0 {
        output_text(stdout)
    } else {
        err
    })
}

impl MacosAdminSessionState {
    /// Takes in the result of a privileged `osascript` run: success
    /// authorizes the session and yields the trimmed standard output; a
    /// failure is remembered and reported as `PermissionDenied` when the
    /// user cancelled, else as classified by `map_privileged_error`.
    pub fn privileged_outcome(
        &mut self,
        success: bool,
        stdout: &[u8],
        stderr: &[u8],
        now_unix: Option<u64>,
    ) -> (r: Result<String, AppError>)
        ensures
            success ==> {
                &&& r is Ok
                &&& r->Ok_0@ == output_text(stdout@)
                &&& final(self).authorized
                &&& final(self).authorized_at_unix == now_unix
                &&& final(self).last_error is None
            },
            !success ==> {
                &&& r is Err
                &&& final(self).authorized == old(self).authorized
                &&& final(self).authorized_at_unix == old(self).authorized_at_unix
                &&& final(self).last_error is Some
                &&& final(self).last_error->0@ == failure_detail(stdout@, stderr@)
                &&& (spec_user_cancelled(failure_detail(stdout@, stderr@)) ==> r->Err_0
                    is PermissionDenied)
                &&& (!spec_user_cancelled(failure_detail(stdout@, stderr@)) ==> is_privileged_error(
                    r->Err_0,
                    failure_detail(stdout@, stderr@),
                ))
            },
    {
        if success {
            self.set_authorized(now_unix);
            return Ok(to_text(stdout));
        }
        let err = to_text(stderr);
        let out = to_text(stdout);
        let detail = if err.as_str().unicode_len() == 0 {
            out
        } else {
            err
        };
        let clean = sanitize_admin_detail(detail.as_str());
        self.set_last_error(string_of(clean.as_str()));
        if is_user_cancelled_error(clean.as_str()) {
            return Err(AppError::PermissionDenied);
        }
        Err(map_privileged_error(clean.as_str()))
    }
}

/// Running a command as administrator, where the platform is not macOS.
pub fn run_privileged_macos(_script: &str) -> (r: Result<String, AppError>)
    ensures
        r matches Err(AppError::Unsupported(m)) && m@
            == "Administrator command is only available on macOS"@,
{
    Err(AppError::Unsupported(string_of("Administrator command is only available on macOS")))
}

/// Running a shell command with privilege escalation, where the platform
/// is not macOS.
pub fn run_shell_with_auto_privilege(_script: &str) -> (r: Result<(), AppError>)
    ensures
        r matches Err(AppError::Unsupported(m)) && m@
            == "Administrator command is only available on macOS"@,
{
    Err(AppError::Unsupported(string_of("Administrator command is only available on macOS")))
}

/// Authorizing the administrator session, where the platform is not macOS.
pub fn authorize_macos_admin_session() -> (r: Result<MacosAdminSessionStatus, AppError>)
    ensures
        r matches Err(AppError::Unsupported(m)) && m@
            == "Administrator authorization is only available on macOS"@,
{
    Err(AppError::Unsupported(string_of("Administrator authorization is only available on macOS")))
}

} // verus!

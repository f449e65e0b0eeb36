//! The macOS helper installer: which helpers exist, when each counts as
//! installed, the one-install-at-a-time rule, and the events an install or
//! an NTFS remount reports.

use crate::error::{spec_message, AppError};
use crate::macos::{shell_escape_single_quotes, shell_escaped};
use crate::text::{decimal, lines, lines_chars, push_chars, push_decimal, push_str, string_of,
    to_chars, trim, trim_chars, chars_eq};
use crate::util::str_eq;
use vstd::prelude::*;

verus! {

/// A helper as the front end lists it.
pub struct MacosPluginItem {
    pub id: String,
    pub name: String,
    pub description: String,
    pub installed: bool,
}

/// Whether an install is running, and for which helper.
pub struct MacosPluginInstallStatus {
    pub running: bool,
    pub plugin_id: Option<String>,
}

/// A helper that can be installed.
pub struct PluginSpec {
    pub id: &'static str,
    pub name: &'static str,
    pub description: &'static str,
    pub install_cmd: &'static str,
}

/// One line of an install's log as the front end receives it.
pub struct InstallEvent {
    pub phase: String,
    pub plugin_id: String,
    pub plugin_name: String,
    pub stream: String,
    pub line: String,
    pub exit_code: Option<i32>,
    pub success: Option<bool>,
}

// ---------------------------------------------------------------------------
// The helpers
// ---------------------------------------------------------------------------

pub open spec fn plugin_id_at(i: int) -> Seq<char> {
    if i == 0 {
        "homebrew"@
    } else if i == 1 {
        "macfuse"@
    } else if i == 2 {
        "gromgit-homebrew-fuse"@
    } else if i == 3 {
        "ntfs-3g-mac"@
    } else if i == 4 {
        "smartmontools"@
    } else {
        "wimlib"@
    }
}

pub open spec fn plugin_name_at(i: int) -> Seq<char> {
    if i == 0 {
        "Homebrew"@
    } else if i == 1 {
        "macFUSE"@
    } else if i == 2 {
        "gromgit/homebrew-fuse tap"@
    } else if i == 3 {
        "ntfs-3g-mac"@
    } else if i == 4 {
        "smartmontools"@
    } else {
        "wimlib"@
    }
}

pub open spec fn plugin_description_at(i: int) -> Seq<char> {
    if i == 0 {
        "Package manager required by all other macOS plugins."@
    } else if i == 1 {
        "FUSE driver used by NTFS writable mounting."@
    } else if i == 2 {
        "Homebrew tap that provides ntfs-3g-mac formula."@
    } else if i == 3 {
        "Writable NTFS support on macOS."@
    } else if i == 4 {
        "Provides smartctl for disk SMART diagnostics."@
    } else {
        "Provides wimlib-imagex for reading WIM/ESD/ISO image indexes."@
    }
}

pub open spec fn plugin_install_cmd_at(i: int) -> Seq<char> {
    if i == 0 {
        "NONINTERACTIVE=1 /bin/bash -c \"$(curl -fsSL https://raw.githubusercontent.com/Homebrew/install/HEAD/install.sh)\""@
    } else if i == 1 {
        "command -v brew >/dev/null 2>&1 || { echo 'Homebrew not found. Install Homebrew first.' >&2; exit 1; }; brew install --cask macfuse"@
    } else if i == 2 {
        "command -v brew >/dev/null 2>&1 || { echo 'Homebrew not found. Install Homebrew first.' >&2; exit 1; }; brew tap gromgit/homebrew-fuse"@
    } else if i == 3 {
        "command -v brew >/dev/null 2>&1 || { echo 'Homebrew not found. Install Homebrew first.' >&2; exit 1; }; brew tap gromgit/homebrew-fuse && brew install ntfs-3g-mac"@
    } else if i == 4 {
        "command -v brew >/dev/null 2>&1 || { echo 'Homebrew not found. Install Homebrew first.' >&2; exit 1; }; brew install smartmontools"@
    } else {
        "command -v brew >/dev/null 2>&1 || { echo 'Homebrew not found. Install Homebrew first.' >&2; exit 1; }; brew install wimlib"@
    }
}

/// The helper at position `i` of the list.
pub open spec fn is_plugin_at(p: PluginSpec, i: int) -> bool {
    &&& p.id@ == plugin_id_at(i)
    &&& p.name@ == plugin_name_at(i)
    &&& p.description@ == plugin_description_at(i)
    &&& p.install_cmd@ == plugin_install_cmd_at(i)
}

/// The helpers, in the order the front end lists them.
pub fn plugin_specs() -> (r: Vec<PluginSpec>)
    ensures
        r@.len() == 6,
        forall|i: int| 0 <= i < 6 ==> is_plugin_at(#[trigger] r@[i], i),
{
    let mut r: Vec<PluginSpec> = Vec::new();
    r.push(
        PluginSpec {
            id: "homebrew",
            name: "Homebrew",
            description: "Package manager required by all other macOS plugins.",
            install_cmd: "NONINTERACTIVE=1 /bin/bash -c \"$(curl -fsSL https://raw.githubusercontent.com/Homebrew/install/HEAD/install.sh)\"",
        },
    );
    r.push(
        PluginSpec {
            id: "macfuse",
            name: "macFUSE",
            description: "FUSE driver used by NTFS writable mounting.",
            install_cmd: "command -v brew >/dev/null 2>&1 || { echo 'Homebrew not found. Install Homebrew first.' >&2; exit 1; }; brew install --cask macfuse",
        },
    );
    r.push(
        PluginSpec {
            id: "gromgit-homebrew-fuse",
            name: "gromgit/homebrew-fuse tap",
            description: "Homebrew tap that provides ntfs-3g-mac formula.",
            install_cmd: "command -v brew >/dev/null 2>&1 || { echo 'Homebrew not found. Install Homebrew first.' >&2; exit 1; }; brew tap gromgit/homebrew-fuse",
        },
    );
    r.push(
        PluginSpec {
            id: "ntfs-3g-mac",
            name: "ntfs-3g-mac",
            description: "Writable NTFS support on macOS.",
            install_cmd: "command -v brew >/dev/null 2>&1 || { echo 'Homebrew not found. Install Homebrew first.' >&2; exit 1; }; brew tap gromgit/homebrew-fuse && brew install ntfs-3g-mac",
        },
    );
    r.push(
        PluginSpec {
            id: "smartmontools",
            name: "smartmontools",
            description: "Provides smartctl for disk SMART diagnostics.",
            install_cmd: "command -v brew >/dev/null 2>&1 || { echo 'Homebrew not found. Install Homebrew first.' >&2; exit 1; }; brew install smartmontools",
        },
    );
    r.push(
        PluginSpec {
            id: "wimlib",
            name: "wimlib",
            description: "Provides wimlib-imagex for reading WIM/ESD/ISO image indexes.",
            install_cmd: "command -v brew >/dev/null 2>&1 || { echo 'Homebrew not found. Install Homebrew first.' >&2; exit 1; }; brew install wimlib",
        },
    );
    r
}

fn copy_spec(p: &PluginSpec) -> (r: PluginSpec)
    ensures
        r == *p,
{
    PluginSpec {
        id: p.id,
        name: p.name,
        description: p.description,
        install_cmd: p.install_cmd,
    }
}

/// The index of the first helper with identifier `id`, if any.
pub open spec fn plugin_index(id: Seq<char>) -> Option<int> {
    if id == plugin_id_at(0) {
        Some(0)
    } else if id == plugin_id_at(1) {
        Some(1)
    } else if id == plugin_id_at(2) {
        Some(2)
    } else if id == plugin_id_at(3) {
        Some(3)
    } else if id == plugin_id_at(4) {
        Some(4)
    } else if id == plugin_id_at(5) {
        Some(5)
    } else {
        None
    }
}

/// The helper named by `plugin_id`.
pub fn find_plugin(plugin_id: &str) -> (r: Result<PluginSpec, AppError>)
    ensures
        plugin_index(plugin_id@) matches Some(i) ==> (r matches Ok(p) && is_plugin_at(p, i)),
        plugin_index(plugin_id@) is None ==> (r matches Err(AppError::InvalidParameter(e)) && e@
            == "Unknown plugin id: "@ + plugin_id@),
{
    let specs = plugin_specs();
    let mut i: usize = 0;
    while i < specs.len()
        invariant
            specs@.len() == 6,
            forall|k: int| 0 <= k < 6 ==> is_plugin_at(#[trigger] specs@[k], k),
            i <= 6,
            forall|k: int| 0 <= k < i ==> plugin_id_at(k) != plugin_id@,
        decreases 6 - i,
    {
        let p = &specs[i];
        assert(is_plugin_at(specs@[i as int], i as int));
        if str_eq(p.id, plugin_id) {
            return Ok(copy_spec(p));
        }
        i = i + 1;
    }
    let mut e = string_of("Unknown plugin id: ");
    push_str(&mut e, plugin_id);
    Err(AppError::InvalidParameter(e))
}

// ---------------------------------------------------------------------------
// Whether a helper is installed
// ---------------------------------------------------------------------------

/// The raw answers of the shell probes: `command -v`, `brew list`,
/// `pkgutil` and the output of `brew tap`.
pub struct PluginProbes {
    pub brew: bool,
    pub macfuse_cask: bool,
    pub macfuse_pkg: bool,
    pub brew_taps: Option<String>,
    pub ntfs3g_command: bool,
    pub ntfs3g_mac_formula: bool,
    pub ntfs3g_formula: bool,
    pub smartctl_command: bool,
    pub smartmontools_formula: bool,
    pub wimlib_command: bool,
    pub wimlib_formula: bool,
}

/// `brew tap` lists `name` on a line of its own (blanks ignored).
pub open spec fn tap_listed(output: Seq<char>, name: Seq<char>) -> bool {
    exists|i: int| 0 <= i < lines(output).len() && trim(#[trigger] lines(output)[i]) == name
}

/// Whether the output of `brew tap` lists `name`.
pub fn brew_tap_present(output: &str, name: &str) -> (r: bool)
    ensures
        r == tap_listed(output@, name@),
{
    let ls = lines_chars(to_chars(output).as_slice());
    let n = to_chars(name);
    let mut i: usize = 0;
    while i < ls.len()
        invariant
            ls@.len() == lines(output@).len(),
            forall|k: int| 0 <= k < ls@.len() ==> (#[trigger] ls@[k])@ == lines(output@)[k],
            n@ == name@,
            i <= ls@.len(),
            forall|k: int| 0 <= k < i ==> trim(#[trigger] lines(output@)[k]) != name@,
        decreases ls@.len() - i,
    {
        let t = trim_chars(ls[i].as_slice());
        if chars_eq(t.as_slice(), n.as_slice()) {
            assert(trim(lines(output@)[i as int]) == name@);
            return true;
        }
        i = i + 1;
    }
    false
}

/// A tap counts only where Homebrew itself is present.
pub open spec fn spec_tap_present(p: PluginProbes, name: Seq<char>) -> bool {
    p.brew && (p.brew_taps matches Some(o) && tap_listed(o@, name))
}

/// When each helper counts as installed (formulae and casks only where
/// Homebrew is present).
pub open spec fn spec_plugin_installed(id: Seq<char>, p: PluginProbes) -> bool {
    if id == "homebrew"@ {
        p.brew
    } else if id == "macfuse"@ {
        (p.brew && p.macfuse_cask) || p.macfuse_pkg
    } else if id == "gromgit-homebrew-fuse"@ {
        spec_tap_present(p, "gromgit/homebrew-fuse"@) || spec_tap_present(p, "gromgit/fuse"@)
    } else if id == "ntfs-3g-mac"@ {
        p.ntfs3g_command || (p.brew && p.ntfs3g_mac_formula) || (p.brew && p.ntfs3g_formula)
    } else if id == "smartmontools"@ {
        p.smartctl_command || (p.brew && p.smartmontools_formula)
    } else if id == "wimlib"@ {
        p.wimlib_command || (p.brew && p.wimlib_formula)
    } else {
        false
    }
}

/// Installs that do not go through Homebrew always count: macFUSE from its
/// installer package, and ntfs-3g, smartctl and wimlib found as commands.
/// Without Homebrew, macFUSE counts exactly when its package is registered,
/// and Homebrew itself counts exactly when `brew` is found.
pub proof fn law_installed_without_homebrew(p: PluginProbes)
    ensures
        p.macfuse_pkg ==> spec_plugin_installed("macfuse"@, p),
        p.ntfs3g_command ==> spec_plugin_installed("ntfs-3g-mac"@, p),
        p.smartctl_command ==> spec_plugin_installed("smartmontools"@, p),
        p.wimlib_command ==> spec_plugin_installed("wimlib"@, p),
        !p.brew ==> (spec_plugin_installed("macfuse"@, p) <==> p.macfuse_pkg),
        spec_plugin_installed("homebrew"@, p) <==> p.brew,
{
    reveal_strlit("homebrew");
    reveal_strlit("macfuse");
    reveal_strlit("gromgit-homebrew-fuse");
    reveal_strlit("ntfs-3g-mac");
    reveal_strlit("smartmontools");
    reveal_strlit("wimlib");
    // The identifiers differ in their first letters.
    assert("macfuse"@[0] != "homebrew"@[0]);
    assert("ntfs-3g-mac"@[0] != "homebrew"@[0] && "ntfs-3g-mac"@[0] != "macfuse"@[0]
        && "ntfs-3g-mac"@[0] != "gromgit-homebrew-fuse"@[0]);
    assert("smartmontools"@[0] != "homebrew"@[0] && "smartmontools"@[0] != "macfuse"@[0]
        && "smartmontools"@[0] != "gromgit-homebrew-fuse"@[0] && "smartmontools"@[0]
        != "ntfs-3g-mac"@[0]);
    assert("wimlib"@[0] != "homebrew"@[0] && "wimlib"@[0] != "macfuse"@[0] && "wimlib"@[0]
        != "gromgit-homebrew-fuse"@[0] && "wimlib"@[0] != "ntfs-3g-mac"@[0] && "wimlib"@[0]
        != "smartmontools"@[0]);
}

fn tap_present(p: &PluginProbes, name: &str) -> (r: bool)
    ensures
        r == spec_tap_present(*p, name@),
{
    if !p.brew {
        return false;
    }
    match &p.brew_taps {
        Some(o) => brew_tap_present(o.as_str(), name),
        None => false,
    }
}

/// Whether the helper `id` is installed, judged from the probes.
pub fn plugin_installed(id: &str, p: &PluginProbes) -> (r: bool)
    ensures
        r == spec_plugin_installed(id@, *p),
{
    if str_eq(id, "homebrew") {
        p.brew
    } else if str_eq(id, "macfuse") {
        (p.brew && p.macfuse_cask) || p.macfuse_pkg
    } else if str_eq(id, "gromgit-homebrew-fuse") {
        tap_present(p, "gromgit/homebrew-fuse") || tap_present(p, "gromgit/fuse")
    } else if str_eq(id, "ntfs-3g-mac") {
        p.ntfs3g_command || (p.brew && p.ntfs3g_mac_formula) || (p.brew && p.ntfs3g_formula)
    } else if str_eq(id, "smartmontools") {
        p.smartctl_command || (p.brew && p.smartmontools_formula)
    } else if str_eq(id, "wimlib") {
        p.wimlib_command || (p.brew && p.wimlib_formula)
    } else {
        false
    }
}

/// The helpers as the front end lists them.
pub fn plugin_items(p: &PluginProbes) -> (r: Vec<MacosPluginItem>)
    ensures
        r@.len() == 6,
        forall|i: int|
            0 <= i < 6 ==> {
                &&& (#[trigger] r@[i]).id@ == plugin_id_at(i)
                &&& r@[i].name@ == plugin_name_at(i)
                &&& r@[i].description@ == plugin_description_at(i)
                &&& r@[i].installed == spec_plugin_installed(plugin_id_at(i), *p)
            },
{
    let specs = plugin_specs();
    let mut r: Vec<MacosPluginItem> = Vec::new();
    let mut i: usize = 0;
    while i < specs.len()
        invariant
            specs@.len() == 6,
            forall|k: int| 0 <= k < 6 ==> is_plugin_at(#[trigger] specs@[k], k),
            i <= 6,
            r@.len() == i,
            forall|k: int|
                0 <= k < i ==> {
                    &&& (#[trigger] r@[k]).id@ == plugin_id_at(k)
                    &&& r@[k].name@ == plugin_name_at(k)
                    &&& r@[k].description@ == plugin_description_at(k)
                    &&& r@[k].installed == spec_plugin_installed(plugin_id_at(k), *p)
                },
        decreases 6 - i,
    {
        let s = &specs[i];
        assert(is_plugin_at(specs@[i as int], i as int));
        r.push(
            MacosPluginItem {
                id: string_of(s.id),
                name: string_of(s.name),
                description: string_of(s.description),
                installed: plugin_installed(s.id, p),
            },
        );
        i = i + 1;
    }
    r
}

/// The probe that a command is on the search path.
pub fn command_probe_script(name: &str) -> (r: String)
    ensures
        r@ == "command -v "@ + name@ + " >/dev/null 2>&1"@,
{
    let mut r = string_of("command -v ");
    push_str(&mut r, name);
    push_str(&mut r, " >/dev/null 2>&1");
    r
}

/// The probe that Homebrew has a formula (`cask` false) or cask installed.
pub fn brew_list_script(cask: bool, name: &str) -> (r: String)
    ensures
        r@ == "brew list --"@ + (if cask {
            "cask"@
        } else {
            "formula"@
        }) + " "@ + name@ + " >/dev/null 2>&1"@,
{
    let mut r = string_of("brew list --");
    if cask {
        push_str(&mut r, "cask");
    } else {
        push_str(&mut r, "formula");
    }
    push_str(&mut r, " ");
    push_str(&mut r, name);
    push_str(&mut r, " >/dev/null 2>&1");
    r
}

// ---------------------------------------------------------------------------
// Running as the console user
// ---------------------------------------------------------------------------

/// The search path the helper shells use, ahead of the inherited one.
pub fn shell_search_path(current: &str) -> (r: String)
    ensures
        r@ == "/opt/homebrew/bin:/opt/homebrew/sbin:/usr/local/bin:/usr/local/sbin:/usr/bin:/bin:/usr/sbin:/sbin:"@
            + current@,
{
    let mut r = string_of(
        "/opt/homebrew/bin:/opt/homebrew/sbin:/usr/local/bin:/usr/local/sbin:/usr/bin:/bin:/usr/sbin:/sbin:",
    );
    push_str(&mut r, current);
    r
}

/// `id -u` printed 0.
pub fn is_root_output(output: Option<&str>) -> (r: bool)
    ensures
        r == (output matches Some(o) && trim(o@) == "0"@),
{
    match output {
        Some(o) => {
            let t = trim_chars(to_chars(o).as_slice());
            chars_eq(t.as_slice(), to_chars("0").as_slice())
        },
        None => false,
    }
}

pub open spec fn str_opt(o: Option<&str>) -> Option<Seq<char>> {
    match o {
        Some(s) => Some(s@),
        None => None,
    }
}

/// A user name other than root, trimmed.
pub open spec fn usable_user(o: Option<Seq<char>>) -> bool {
    o matches Some(v) && trim(v).len() > 0 && trim(v) != "root"@
}

/// The user an install runs as when the app runs as root: `SUDO_USER`,
/// else the owner of the console.
pub fn console_user(sudo_user: Option<&str>, console_owner: Option<&str>) -> (r: Option<String>)
    ensures
        usable_user(str_opt(sudo_user)) ==> (r matches Some(u) && u@ == trim(
            sudo_user->0@,
        )),
        !usable_user(str_opt(sudo_user)) && usable_user(str_opt(console_owner))
            ==> (r matches Some(u) && u@ == trim(console_owner->0@)),
        !usable_user(str_opt(sudo_user)) && !usable_user(str_opt(console_owner))
            ==> r is None,
{
    match sudo_user {
        Some(v) => {
            let t = trim_chars(to_chars(v).as_slice());
            if t.len() > 0 && !chars_eq(t.as_slice(), to_chars("root").as_slice()) {
                let mut u = String::new();
                push_chars(&mut u, t.as_slice());
                return Some(u);
            }
        },
        None => {},
    }
    match console_owner {
        Some(v) => {
            let t = trim_chars(to_chars(v).as_slice());
            if t.len() > 0 && !chars_eq(t.as_slice(), to_chars("root").as_slice()) {
                let mut u = String::new();
                push_chars(&mut u, t.as_slice());
                Some(u)
            } else {
                None
            }
        },
        None => None,
    }
}

/// The error when the installer runs as root and no console user is found.
pub fn no_console_user_error() -> (r: AppError)
    ensures
        r matches AppError::SystemError(m) && m@
            == "Installer is running as root, but no non-root console user was found."@,
{
    AppError::SystemError(
        string_of("Installer is running as root, but no non-root console user was found."),
    )
}

/// The command `su` runs for the console user: the script, quoted, in a
/// login shell with the Homebrew search path.
pub fn user_shell_payload(script: &str) -> (r: String)
    ensures
        r@ == "export PATH='/opt/homebrew/bin:/opt/homebrew/sbin:/usr/local/bin:/usr/local/sbin:/usr/bin:/bin:/usr/sbin:/sbin'; /bin/sh -lc '"@
            + shell_escaped(script@) + "'"@,
{
    let mut r = string_of(
        "export PATH='/opt/homebrew/bin:/opt/homebrew/sbin:/usr/local/bin:/usr/local/sbin:/usr/bin:/bin:/usr/sbin:/sbin'; /bin/sh -lc '",
    );
    let e = shell_escape_single_quotes(script);
    push_str(&mut r, e.as_str());
    push_str(&mut r, "'");
    r
}

// ---------------------------------------------------------------------------
// One install at a time
// ---------------------------------------------------------------------------

/// The installer's state: whether a task runs, and for which helper.
pub struct InstallState {
    pub running: bool,
    pub plugin_id: Option<String>,
}

pub open spec fn busy_message() -> Seq<char> {
    "Another plugin install task is currently running"@
}

impl InstallState {
    /// No task running.
    pub fn new() -> (r: InstallState)
        ensures
            !r.running,
            r.plugin_id is None,
    {
        InstallState { running: false, plugin_id: None }
    }

    /// What the front end is told about the installer.
    pub fn status(&self) -> (r: MacosPluginInstallStatus)
        ensures
            r.running == self.running,
            r.plugin_id is Some <==> self.plugin_id is Some,
            r.plugin_id is Some ==> r.plugin_id->0@ == self.plugin_id->0@,
    {
        MacosPluginInstallStatus {
            running: self.running,
            plugin_id: match &self.plugin_id {
                Some(s) => Some(string_of(s.as_str())),
                None => None,
            },
        }
    }

    /// Claims the installer for `plugin_id`; refused while another task
    /// runs, which is then left as it was.
    pub fn begin(&mut self, plugin_id: &str) -> (r: Result<(), AppError>)
        ensures
            old(self).running ==> (r matches Err(AppError::SystemError(m)) && m@ == busy_message()),
            old(self).running ==> *final(self) == *old(self),
            !old(self).running ==> r is Ok && final(self).running,
            !old(self).running ==> (final(self).plugin_id matches Some(p) && p@ == plugin_id@),
    {
        if self.running {
            return Err(AppError::SystemError(
                string_of("Another plugin install task is currently running"),
            ));
        }
        self.running = true;
        self.plugin_id = Some(string_of(plugin_id));
        Ok(())
    }

    /// Releases the installer when a task ends, however it ended.
    pub fn finish(&mut self)
        ensures
            !final(self).running,
            final(self).plugin_id is None,
    {
        self.running = false;
        self.plugin_id = None;
    }
}

/// Starts the install of `plugin_id`: unknown helpers are refused, then a
/// busy installer; otherwise the installer is claimed for the helper.
pub fn start_plugin_install(state: &mut InstallState, plugin_id: &str) -> (r: Result<String, AppError>)
    ensures
        plugin_index(plugin_id@) is None ==> (r matches Err(AppError::InvalidParameter(e)) && e@
            == "Unknown plugin id: "@ + plugin_id@) && *final(state) == *old(state),
        plugin_index(plugin_id@) is Some && old(state).running ==> (r matches Err(
            AppError::SystemError(m),
        ) && m@ == busy_message()) && *final(state) == *old(state),
        plugin_index(plugin_id@) matches Some(i) ==> (!old(state).running ==> (r matches Ok(m) && m@
            == "Install task started: "@ + plugin_name_at(i))),
        plugin_index(plugin_id@) matches Some(i) ==> (!old(state).running ==> final(state).running),
        plugin_index(plugin_id@) matches Some(i) ==> (!old(state).running ==> (final(state).plugin_id
            matches Some(p) && p@ == plugin_id_at(i))),
{
    let spec = match find_plugin(plugin_id) {
        Ok(s) => s,
        Err(e) => {
            return Err(e);
        },
    };
    match state.begin(spec.id) {
        Ok(()) => {},
        Err(e) => {
            return Err(e);
        },
    }
    let mut m = string_of("Install task started: ");
    push_str(&mut m, spec.name);
    Ok(m)
}

/// A signed number in decimal.
pub open spec fn signed_decimal(v: int) -> Seq<char> {
    if v < 0 {
        "-"@ + decimal((-v) as nat)
    } else {
        decimal(v as nat)
    }
}

fn push_i32(s: &mut String, v: i32)
    ensures
        final(s)@ == old(s)@ + signed_decimal(v as int),
{
    if v < 0 {
        push_str(s, "-");
        let m: i64 = -(v as i64);
        push_decimal(s, m as u64);
    } else {
        push_decimal(s, v as u64);
    }
}

/// How an install ended: success, exit code and the summary line.
pub struct InstallSummary {
    pub success: bool,
    pub exit_code: Option<i32>,
    pub summary: String,
}

/// Summarises the end of an install: exit code 0 is success; a failure to
/// run at all carries the error's message.
pub fn install_summary(name: &str, result: &Result<i32, AppError>) -> (r: InstallSummary)
    ensures
        result matches Ok(c) ==> (r.success == (c == 0) && r.exit_code == Some(*c) && r.summary@
            == (if c == 0 {
            "Install completed: "@ + name@
        } else {
            "Install failed (exit code "@ + signed_decimal(c as int) + "): "@ + name@
        })),
        result matches Err(e) ==> (!r.success && r.exit_code is None && r.summary@
            == "Install failed: "@ + spec_message(*e)),
{
    match result {
        Ok(c) => {
            let mut m = String::new();
            if *c == 0 {
                push_str(&mut m, "Install completed: ");
            } else {
                push_str(&mut m, "Install failed (exit code ");
                push_i32(&mut m, *c);
                push_str(&mut m, "): ");
            }
            push_str(&mut m, name);
            InstallSummary { success: *c == 0, exit_code: Some(*c), summary: m }
        },
        Err(e) => {
            let mut m = string_of("Install failed: ");
            let t = e.message();
            push_str(&mut m, t.as_str());
            InstallSummary { success: false, exit_code: None, summary: m }
        },
    }
}

/// An event of `plugin` with the given phase, stream and line.
pub open spec fn is_event(
    ev: InstallEvent,
    id: Seq<char>,
    name: Seq<char>,
    phase: Seq<char>,
    stream: Seq<char>,
    line: Seq<char>,
    exit_code: Option<i32>,
    success: Option<bool>,
) -> bool {
    &&& ev.phase@ == phase
    &&& ev.plugin_id@ == id
    &&& ev.plugin_name@ == name
    &&& ev.stream@ == stream
    &&& ev.line@ == line
    &&& ev.exit_code == exit_code
    &&& ev.success == success
}

/// Builds one event of `plugin`.
pub fn install_event(
    plugin: &PluginSpec,
    phase: &str,
    stream: &str,
    line: String,
    exit_code: Option<i32>,
    success: Option<bool>,
) -> (r: InstallEvent)
    ensures
        is_event(r, plugin.id@, plugin.name@, phase@, stream@, line@, exit_code, success),
{
    InstallEvent {
        phase: string_of(phase),
        plugin_id: string_of(plugin.id),
        plugin_name: string_of(plugin.name),
        stream: string_of(stream),
        line,
        exit_code,
        success,
    }
}

// ---------------------------------------------------------------------------
// NTFS remount
// ---------------------------------------------------------------------------

/// The pseudo-helper under which an NTFS remount reports.
pub fn remount_plugin() -> (r: PluginSpec)
    ensures
        r.id@ == "ntfs-remount"@,
        r.name@ == "NTFS Remount"@,
        r.description@ == "Re-mount NTFS volumes as writable via ntfs-mount.sh"@,
        r.install_cmd@ == ""@,
{
    PluginSpec {
        id: "ntfs-remount",
        name: "NTFS Remount",
        description: "Re-mount NTFS volumes as writable via ntfs-mount.sh",
        install_cmd: "",
    }
}

/// Starts an NTFS remount: refused while another task runs; otherwise the
/// installer is claimed for it.
pub fn start_macos_ntfs_remount(state: &mut InstallState) -> (r: Result<String, AppError>)
    ensures
        old(state).running ==> (r matches Err(AppError::SystemError(m)) && m@ == busy_message())
            && *final(state) == *old(state),
        !old(state).running ==> (r matches Ok(m) && m@ == "NTFS remount task started"@)
            && final(state).running && (final(state).plugin_id matches Some(p) && p@
            == "ntfs-remount"@),
{
    let p = remount_plugin();
    match state.begin(p.id) {
        Ok(()) => Ok(string_of("NTFS remount task started")),
        Err(e) => Err(e),
    }
}

pub open spec fn remount_warning() -> Seq<char> {
    "Warning: This operation unmounts and remounts all mounted NTFS volumes. Ongoing copy/read tasks may be interrupted."@
}

/// The two events a remount opens with.
pub fn remount_start_events() -> (r: Vec<InstallEvent>)
    ensures
        r@.len() == 2,
        is_event(
            r@[0],
            "ntfs-remount"@,
            "NTFS Remount"@,
            "started"@,
            "system"@,
            "Starting NTFS remount task"@,
            None,
            None,
        ),
        is_event(r@[1], "ntfs-remount"@, "NTFS Remount"@, "line"@, "stderr"@, remount_warning(), None, None),
{
    let p = remount_plugin();
    let mut r: Vec<InstallEvent> = Vec::new();
    r.push(install_event(&p, "started", "system", string_of("Starting NTFS remount task"), None, None));
    r.push(
        install_event(
            &p,
            "line",
            "stderr",
            string_of(
                "Warning: This operation unmounts and remounts all mounted NTFS volumes. Ongoing copy/read tasks may be interrupted.",
            ),
            None,
            None,
        ),
    );
    r
}

/// The privileged command that runs the mount script at `script_path`.
pub fn ntfs_remount_command(script_path: &str) -> (r: String)
    ensures
        r@ == "export PATH='/opt/homebrew/bin:/opt/homebrew/sbin:/usr/local/bin:/usr/local/sbin:/usr/bin:/bin:/usr/sbin:/sbin:$PATH'; bash '"@
            + shell_escaped(script_path@) + "'"@,
{
    let mut r = string_of(
        "export PATH='/opt/homebrew/bin:/opt/homebrew/sbin:/usr/local/bin:/usr/local/sbin:/usr/bin:/bin:/usr/sbin:/sbin:$PATH'; bash '",
    );
    let e = shell_escape_single_quotes(script_path);
    push_str(&mut r, e.as_str());
    push_str(&mut r, "'");
    r
}

/// The error when the mount script cannot be found.
pub fn mount_script_missing() -> (r: AppError)
    ensures
        r matches AppError::SystemError(m) && m@ == "Cannot find useable_software/ntfs-mount.sh"@,
{
    AppError::SystemError(string_of("Cannot find useable_software/ntfs-mount.sh"))
}

/// The events after the remount ran: its output line by line (or a note
/// that there was none) and success; or the error and failure.
pub fn remount_result_events(outcome: &Result<String, AppError>) -> (r: Vec<InstallEvent>)
    ensures
        outcome matches Ok(out) ==> {
            let ls = lines(out@);
            let n: int = if trim(out@).len() == 0 {
                1
            } else {
                ls.len() as int
            };
            &&& r@.len() == n + 1
            &&& trim(out@).len() == 0 ==> is_event(
                r@[0],
                "ntfs-remount"@,
                "NTFS Remount"@,
                "line"@,
                "system"@,
                "NTFS remount command completed with no output"@,
                None,
                None,
            )
            &&& trim(out@).len() > 0 ==> forall|k: int|
                0 <= k < n ==> is_event(
                    #[trigger] r@[k],
                    "ntfs-remount"@,
                    "NTFS Remount"@,
                    "line"@,
                    "stdout"@,
                    ls[k],
                    None,
                    None,
                )
            &&& is_event(
                r@[n],
                "ntfs-remount"@,
                "NTFS Remount"@,
                "finished"@,
                "system"@,
                "NTFS remount completed"@,
                Some(0i32),
                Some(true),
            )
        },
        outcome matches Err(e) ==> {
            &&& r@.len() == 2
            &&& is_event(
                r@[0],
                "ntfs-remount"@,
                "NTFS Remount"@,
                "line"@,
                "stderr"@,
                spec_message(*e),
                None,
                None,
            )
            &&& is_event(
                r@[1],
                "ntfs-remount"@,
                "NTFS Remount"@,
                "finished"@,
                "system"@,
                "NTFS remount failed: "@ + spec_message(*e),
                None,
                Some(false),
            )
        },
{
    let p = remount_plugin();
    let mut r: Vec<InstallEvent> = Vec::new();
    match outcome {
        Ok(out) => {
            let cs = to_chars(out.as_str());
            let t = trim_chars(cs.as_slice());
            if t.len() == 0 {
                r.push(
                    install_event(
                        &p,
                        "line",
                        "system",
                        string_of("NTFS remount command completed with no output"),
                        None,
                        None,
                    ),
                );
            } else {
                let ls = lines_chars(cs.as_slice());
                let mut i: usize = 0;
                while i < ls.len()
                    invariant
                        cs@ == out@,
                        p.id@ == "ntfs-remount"@,
                        p.name@ == "NTFS Remount"@,
                        ls@.len() == lines(out@).len(),
                        forall|k: int| 0 <= k < ls@.len() ==> (#[trigger] ls@[k])@ == lines(out@)[k],
                        i <= ls@.len(),
                        r@.len() == i,
                        forall|k: int|
                            0 <= k < i ==> is_event(
                                #[trigger] r@[k],
                                "ntfs-remount"@,
                                "NTFS Remount"@,
                                "line"@,
                                "stdout"@,
                                lines(out@)[k],
                                None,
                                None,
                            ),
                    decreases ls@.len() - i,
                {
                    let mut l = String::new();
                    push_chars(&mut l, ls[i].as_slice());
                    r.push(install_event(&p, "line", "stdout", l, None, None));
                    i = i + 1;
                }
            }
            r.push(
                install_event(
                    &p,
                    "finished",
                    "system",
                    string_of("NTFS remount completed"),
                    Some(0),
                    Some(true),
                ),
            );
        },
        Err(e) => {
            let msg = e.message();
            r.push(install_event(&p, "line", "stderr", string_of(msg.as_str()), None, None));
            let mut f = string_of("NTFS remount failed: ");
            push_str(&mut f, msg.as_str());
            r.push(install_event(&p, "finished", "system", f, None, Some(false)));
        },
    }
    r
}

/// The installer where the platform is not macOS.
pub fn plugin_installer_unsupported() -> (r: AppError)
    ensures
        r matches AppError::Unsupported(m) && m@
            == "macOS plugin installer is only available on macOS"@,
{
    AppError::Unsupported(string_of("macOS plugin installer is only available on macOS"))
}

/// The NTFS remount helper where the platform is not macOS.
pub fn ntfs_remount_unsupported() -> (r: AppError)
    ensures
        r matches AppError::Unsupported(m) && m@
            == "NTFS remount helper is only available on macOS"@,
{
    AppError::Unsupported(string_of("NTFS remount helper is only available on macOS"))
}

} // verus!

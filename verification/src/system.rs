//! Records the front end receives about the machine and its USB devices,
//! and the progress line a captured command reports.

use crate::text::{parse_u64, parse_u64_chars, push_str, string_of, to_chars, trim, trim_chars};
use vstd::prelude::*;

verus! {

/// What the front end shows about the machine.
pub struct SystemInfo {
    pub os: String,
    pub arch: String,
    pub version: String,
    pub cpu_model: String,
    pub total_memory: u64,
    pub available_memory: u64,
    pub cpu_count: usize,
}

/// A USB storage device.
pub struct UsbDevice {
    pub id: String,
    pub name: String,
    pub vendor: String,
    pub product: String,
    pub size: u64,
}

/// Whether a device arrived or left.
#[derive(Debug, Clone, Copy, PartialEq, Eq, Structural)]
pub enum UsbEventType {
    Connected,
    Disconnected,
}

/// A device arriving or leaving.
pub struct UsbEvent {
    pub event_type: UsbEventType,
    pub device: UsbDevice,
}

/// The name an event type is sent under.
pub fn usb_event_type_name(t: UsbEventType) -> (r: &'static str)
    ensures
        t is Connected ==> r@ == "connected"@,
        t is Disconnected ==> r@ == "disconnected"@,
{
    match t {
        UsbEventType::Connected => "connected",
        UsbEventType::Disconnected => "disconnected",
    }
}

/// The task and stage under which a captured command's output is reported.
pub struct OutputCapture {
    pub task_id: String,
    pub stage: String,
}

impl OutputCapture {
    pub fn new(task_id: &str, stage: &str) -> (r: OutputCapture)
        ensures
            r.task_id@ == task_id@,
            r.stage@ == stage@,
    {
        OutputCapture { task_id: string_of(task_id), stage: string_of(stage) }
    }

    /// The progress line: the stage with the percentage the tool printed,
    /// or the stage followed by an ellipsis.
    pub fn progress_message(&self, percentage: Option<&str>) -> (r: String)
        ensures
            percentage matches Some(p) ==> r@ == self.stage@ + " ("@ + p@ + "%)"@,
            percentage is None ==> r@ == self.stage@ + "..."@,
    {
        let mut r = string_of(self.stage.as_str());
        match percentage {
            Some(p) => {
                push_str(&mut r, " (");
                push_str(&mut r, p);
                push_str(&mut r, "%)");
            },
            None => {
                push_str(&mut r, "...");
            },
        }
        r
    }
}


// ---------------------------------------------------------------------------
// Describing the machine
// ---------------------------------------------------------------------------

pub open spec fn opt_text(o: Option<&str>) -> Seq<char> {
    match o {
        Some(s) => s@,
        None => Seq::<char>::empty(),
    }
}

/// The Windows version as WMI names it: the caption, with the build number
/// where WMI gives one; nothing without a caption.
pub fn os_version_from_wmi(caption: Option<&str>, build_number: Option<&str>) -> (r: Option<String>)
    ensures
        opt_text(caption).len() == 0 ==> r is None,
        opt_text(caption).len() > 0 ==> (r matches Some(v) && v@ == opt_text(caption) + (match build_number {
            Some(b) => " Build "@ + b@,
            None => Seq::<char>::empty(),
        })),
{
    let mut s = match caption {
        Some(c) => string_of(c),
        None => String::new(),
    };
    if s.as_str().unicode_len() == 0 {
        return None;
    }
    match build_number {
        Some(b) => {
            push_str(&mut s, " Build ");
            push_str(&mut s, b);
        },
        None => {},
    }
    Some(s)
}

/// The Windows version as the registry names it: product name, display
/// version and build, each where present; nothing without a product name.
pub fn os_version_from_registry(product_name: &str, display_version: &str, current_build: &str) -> (r:
    Option<String>)
    ensures
        product_name@.len() == 0 ==> r is None,
        product_name@.len() > 0 ==> (r matches Some(v) && v@ == product_name@ + (if display_version@.len()
            > 0 {
            " "@ + display_version@
        } else {
            Seq::<char>::empty()
        }) + (if current_build@.len() > 0 {
            " Build "@ + current_build@
        } else {
            Seq::<char>::empty()
        })),
{
    if product_name.unicode_len() == 0 {
        return None;
    }
    let mut v = string_of(product_name);
    if display_version.unicode_len() > 0 {
        push_str(&mut v, " ");
        push_str(&mut v, display_version);
    }
    if current_build.unicode_len() > 0 {
        push_str(&mut v, " Build ");
        push_str(&mut v, current_build);
    }
    Some(v)
}

/// The version shown: the detailed one, else the generic long name, else
/// `Unknown`.
pub fn get_os_version(detailed: Option<String>, long_name: Option<String>) -> (r: String)
    ensures
        detailed matches Some(d) ==> r@ == d@,
        detailed is None ==> (long_name matches Some(l) ==> r@ == l@),
        detailed is None && long_name is None ==> r@ == "Unknown"@,
{
    match detailed {
        Some(d) => d,
        None => match long_name {
            Some(l) => l,
            None => string_of("Unknown"),
        },
    }
}

/// The module capacities that parse as numbers once trimmed.
pub open spec fn capacities(caps: Seq<Option<String>>) -> Seq<u64>
    decreases caps.len(),
{
    if caps.len() == 0 {
        Seq::<u64>::empty()
    } else {
        let p = capacities(caps.drop_last());
        match caps.last() {
            Some(c) => match parse_u64(trim(c@)) {
                Some(v) => p.push(v),
                None => p,
            },
            None => p,
        }
    }
}

pub open spec fn total(s: Seq<u64>) -> nat
    decreases s.len(),
{
    if s.len() == 0 {
        0
    } else {
        total(s.drop_last()) + s.last() as nat
    }
}

proof fn lemma_total_prefix(s: Seq<Option<String>>, i: int)
    requires
        0 <= i <= s.len(),
    ensures
        total(capacities(s.take(i))) <= total(capacities(s)),
    decreases s.len() - i,
{
    if i < s.len() {
        lemma_total_prefix(s, i + 1);
        assert(s.take(i + 1).drop_last() =~= s.take(i));
        let p = capacities(s.take(i));
        assert(capacities(s.take(i + 1)) == p || capacities(s.take(i + 1)) == p.push(
            capacities(s.take(i + 1)).last(),
        ));
        if capacities(s.take(i + 1)) != p {
            assert(capacities(s.take(i + 1)).drop_last() =~= p);
        }
    } else {
        assert(s.take(i) =~= s);
    }
}

/// The installed memory as the sum of the module capacities WMI reports;
/// nothing when that sum is zero.
pub fn total_memory_from_capacities(caps: &Vec<Option<String>>) -> (r: Option<u64>)
    requires
        total(capacities(caps@)) <= u64::MAX,
    ensures
        total(capacities(caps@)) > 0 ==> r == Some(total(capacities(caps@)) as u64),
        total(capacities(caps@)) == 0 ==> r is None,
{
    let mut sum: u64 = 0;
    let mut i: usize = 0;
    while i < caps.len()
        invariant
            i <= caps@.len(),
            sum == total(capacities(caps@.take(i as int))),
            total(capacities(caps@)) <= u64::MAX,
        decreases caps@.len() - i,
    {
        assert(caps@.take(i + 1).drop_last() =~= caps@.take(i as int));
        proof {
            lemma_total_prefix(caps@, i + 1);
        }
        match &caps[i] {
            Some(c) => {
                let t = trim_chars(to_chars(c.as_str()).as_slice());
                match parse_u64_chars(t.as_slice()) {
                    Some(v) => {
                        let ghost p = capacities(caps@.take(i as int));
                        assert(capacities(caps@.take(i + 1)) == p.push(v));
                        assert(p.push(v).drop_last() =~= p);
                        sum = sum + v;
                    },
                    None => {},
                }
            },
            None => {},
        }
        i = i + 1;
    }
    assert(caps@.take(i as int) =~= caps@);
    if sum > 0 {
        Some(sum)
    } else {
        None
    }
}

/// The first processor name that is not blank (as WMI reports it).
pub open spec fn first_named(names: Seq<Option<String>>) -> Option<Seq<char>>
    decreases names.len(),
{
    if names.len() == 0 {
        None
    } else {
        match names[0] {
            Some(n) => if trim(n@).len() > 0 {
                Some(n@)
            } else {
                first_named(names.drop_first())
            },
            None => first_named(names.drop_first()),
        }
    }
}

/// The processor model from WMI's processor names.
pub fn cpu_model_from_names(names: &Vec<Option<String>>) -> (r: Option<String>)
    ensures
        first_named(names@) matches Some(n) ==> (r matches Some(s) && s@ == n),
        first_named(names@) is None ==> r is None,
{
    let mut i: usize = 0;
    assert(names@.skip(0) =~= names@);
    while i < names.len()
        invariant
            i <= names@.len(),
            first_named(names@) == first_named(names@.skip(i as int)),
        decreases names@.len() - i,
    {
        assert(names@.skip(i as int)[0] == names@[i as int]);
        assert(names@.skip(i as int).drop_first() =~= names@.skip(i + 1));
        match &names[i] {
            Some(n) => {
                let t = trim_chars(to_chars(n.as_str()).as_slice());
                if t.len() > 0 {
                    return Some(string_of(n.as_str()));
                }
            },
            None => {},
        }
        i = i + 1;
    }
    assert(names@.skip(i as int) =~= Seq::<Option<String>>::empty());
    None
}

/// The processor shown: the detailed model, else the trimmed brand, else
/// `Unknown CPU`.
pub fn get_cpu_model(detailed: Option<String>, brand: &str) -> (r: String)
    ensures
        detailed matches Some(d) ==> r@ == d@,
        detailed is None && trim(brand@).len() > 0 ==> r@ == trim(brand@),
        detailed is None && trim(brand@).len() == 0 ==> r@ == "Unknown CPU"@,
{
    match detailed {
        Some(d) => d,
        None => {
            let t = trim_chars(to_chars(brand).as_slice());
            if t.len() == 0 {
                string_of("Unknown CPU")
            } else {
                let mut r = String::new();
                crate::text::push_chars(&mut r, t.as_slice());
                r
            }
        },
    }
}

/// The memory shown: what Windows reports as installed, else the sum over
/// the modules, else the total the system library reports.
pub fn get_total_memory(installed: Option<u64>, from_modules: Option<u64>, system_total: u64) -> (r: u64)
    ensures
        installed matches Some(v) ==> r == v,
        installed is None ==> (from_modules matches Some(v) ==> r == v),
        installed is None && from_modules is None ==> r == system_total,
{
    match installed {
        Some(v) => v,
        None => match from_modules {
            Some(v) => v,
            None => system_total,
        },
    }
}

} // verus!

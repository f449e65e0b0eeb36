//! The hardware overview: which device names are shown, how they are
//! labelled, and how the memory summary is written.
//!
//! The facts come from WMI, DXGI and PowerShell; byte counts arrive already
//! rounded to whole gigabytes and megabytes.

use crate::text::{
    ascii_lower, contains, decimal, eq_ignore_case, join, push_chars, push_decimal, push_str,
    starts_with, string_of, to_chars, trim, trim_chars, views, contains_chars, lower_chars,
    chars_eq, eq_ignore_case_chars, starts_with_chars, join_strings,
};
use crate::text::{keep_digits, keep_digits_chars, parse_u64, parse_u64_chars};
use crate::util::str_eq;
use vstd::prelude::*;

verus! {

/// What the hardware page lists.
pub struct HardwareOverview {
    pub processors: Vec<String>,
    pub motherboard: String,
    pub memory_summary: String,
    pub graphics: Vec<String>,
    pub monitors: Vec<String>,
    pub disks: Vec<String>,
    pub audio_devices: Vec<String>,
    pub network_adapters: Vec<String>,
}

/// A processor as WMI reports it.
pub struct ProcessorFacts {
    pub name: Option<String>,
    pub number_of_cores: Option<u32>,
}

/// A baseboard as WMI reports it.
pub struct BoardFacts {
    pub manufacturer: Option<String>,
    pub product: Option<String>,
}

/// A memory module: its capacity rounded to gigabytes, its clock speeds and
/// its type codes.
pub struct MemoryFacts {
    pub capacity_gb: Option<u64>,
    pub configured_clock_speed: Option<u32>,
    pub speed: Option<u32>,
    pub smbios_memory_type: Option<u16>,
    pub memory_type: Option<u16>,
}

/// Dedicated video memory: the byte count, and the same rounded to
/// gigabytes and to megabytes.
#[derive(Clone, Copy)]
pub struct VramSize {
    pub bytes: u64,
    pub gb: u64,
    pub mb: u64,
}

/// A DXGI adapter: whether it is a software renderer, its description and
/// its video memory.
pub struct AdapterFacts {
    pub software: bool,
    pub description: String,
    pub vram: VramSize,
}

/// A video controller as WMI reports it.
pub struct GpuFacts {
    pub name: Option<String>,
    pub vram: VramSize,
}

/// A disk drive as WMI reports it, its size rounded to gigabytes.
pub struct DiskFacts {
    pub model: Option<String>,
    pub size_gb: u64,
}

/// A disk as `Get-Disk` reports it, its size rounded to gigabytes.
pub struct PsDiskFacts {
    pub name: Option<String>,
    pub size_gb: u64,
    pub number: Option<u32>,
}

/// A network adapter as WMI reports it.
pub struct NicFacts {
    pub name: Option<String>,
    pub physical_adapter: Option<bool>,
    pub net_enabled: Option<bool>,
}

/// Everything the overview is made from.
pub struct HardwareFacts {
    pub processors: Vec<ProcessorFacts>,
    pub boards: Vec<BoardFacts>,
    pub memories: Vec<MemoryFacts>,
    pub installed_memory_gb: Option<u64>,
    pub adapters: Vec<AdapterFacts>,
    pub gpus: Vec<GpuFacts>,
    pub monitors: Vec<Option<String>>,
    pub pnp_monitors: Vec<Option<String>>,
    pub disks: Vec<DiskFacts>,
    pub ps_disks: Vec<PsDiskFacts>,
    pub audio_devices: Vec<Option<String>>,
    pub nics: Vec<NicFacts>,
}

// ---------------------------------------------------------------------------
// Removing repeats
// ---------------------------------------------------------------------------

/// The items without repeats, each kept where it first occurs.
pub open spec fn dedup(s: Seq<Seq<char>>) -> Seq<Seq<char>>
    decreases s.len(),
{
    if s.len() == 0 {
        s
    } else {
        let p = dedup(s.drop_last());
        if s.drop_last().contains(s.last()) {
            p
        } else {
            p.push(s.last())
        }
    }
}

/// No item occurs twice.
pub open spec fn no_repeats(s: Seq<Seq<char>>) -> bool {
    forall|i: int, j: int| 0 <= i < j < s.len() ==> #[trigger] s[i] != #[trigger] s[j]
}

/// `dedup` keeps exactly the items of its input.
pub proof fn lemma_dedup_members(s: Seq<Seq<char>>)
    ensures
        forall|x: Seq<char>| #[trigger] dedup(s).contains(x) <==> s.contains(x),
    decreases s.len(),
{
    if s.len() > 0 {
        let p = s.drop_last();
        lemma_dedup_members(p);
        assert forall|x: Seq<char>| #[trigger] dedup(s).contains(x) <==> s.contains(x) by {
            if s.contains(x) && x != s.last() {
                let i = choose|i: int| 0 <= i < s.len() && s[i] == x;
                assert(p[i] == x);
                assert(p.contains(x));
            }
            if p.contains(x) {
                let i = choose|i: int| 0 <= i < p.len() && p[i] == x;
                assert(s[i] == x);
            }
            if !p.contains(s.last()) {
                let d = dedup(p);
                assert(dedup(s) == d.push(s.last()));
                if d.push(s.last()).contains(x) && x != s.last() {
                    let i = choose|i: int| 0 <= i < d.len() + 1 && d.push(s.last())[i] == x;
                    assert(d[i] == x);
                    assert(d.contains(x));
                }
                if x == s.last() {
                    assert(d.push(s.last())[d.len() as int] == x);
                }
                if d.contains(x) {
                    let i = choose|i: int| 0 <= i < d.len() && d[i] == x;
                    assert(d.push(s.last())[i] == x);
                }
            }
            if x == s.last() {
                assert(s[s.len() - 1] == x);
            }
        }
    }
}

/// Law: the result of `dedup_keep_order` holds no item twice.
pub proof fn lemma_dedup_no_repeats(s: Seq<Seq<char>>)
    ensures
        no_repeats(dedup(s)),
    decreases s.len(),
{
    if s.len() > 0 {
        let p = s.drop_last();
        lemma_dedup_no_repeats(p);
        lemma_dedup_members(p);
        if !p.contains(s.last()) {
            let d = dedup(p);
            let n = d.push(s.last());
            assert forall|i: int, j: int| 0 <= i < j < n.len() implies #[trigger] n[i]
                != #[trigger] n[j] by {
                assert(n[i] == d[i]);
                if j < d.len() {
                    assert(n[j] == d[j]);
                } else {
                    assert(d.contains(d[i]));
                }
            }
        }
    }
}

/// A sequence without repeats is its own `dedup`.
pub proof fn lemma_dedup_of_distinct(s: Seq<Seq<char>>)
    requires
        no_repeats(s),
    ensures
        dedup(s) == s,
    decreases s.len(),
{
    if s.len() > 0 {
        let p = s.drop_last();
        assert(no_repeats(p)) by {
            assert forall|i: int, j: int| 0 <= i < j < p.len() implies #[trigger] p[i]
                != #[trigger] p[j] by {
                assert(p[i] == s[i] && p[j] == s[j]);
            }
        }
        lemma_dedup_of_distinct(p);
        if p.contains(s.last()) {
            let i = choose|i: int| 0 <= i < p.len() && p[i] == s.last();
            assert(s[i] == s[s.len() - 1]);
        }
        assert(p.push(s.last()) =~= s);
    }
}

/// Law: removing repeats a second time changes nothing.
pub proof fn lemma_dedup_idempotent(s: Seq<Seq<char>>)
    ensures
        dedup(dedup(s)) == dedup(s),
{
    lemma_dedup_no_repeats(s);
    lemma_dedup_of_distinct(dedup(s));
}

fn contains_string(v: &Vec<String>, x: &String) -> (r: bool)
    ensures
        r == views(v@).contains(x@),
{
    let mut i: usize = 0;
    while i < v.len()
        invariant
            i <= v@.len(),
            forall|k: int| 0 <= k < i ==> v@[k]@ != x@,
        decreases v@.len() - i,
    {
        if str_eq(v[i].as_str(), x.as_str()) {
            assert(views(v@)[i as int] == x@);
            return true;
        }
        i = i + 1;
    }
    proof {
        if views(v@).contains(x@) {
            let k = choose|k: int| 0 <= k < views(v@).len() && views(v@)[k] == x@;
            assert(v@[k]@ == x@);
        }
    }
    false
}

/// Removes repeated items, keeping the first occurrence of each.
pub fn dedup_keep_order(items: Vec<String>) -> (r: Vec<String>)
    ensures
        views(r@) == dedup(views(items@)),
{
    let mut out: Vec<String> = Vec::new();
    let mut i: usize = 0;
    while i < items.len()
        invariant
            i <= items@.len(),
            views(out@) == dedup(views(items@.take(i as int))),
        decreases items@.len() - i,
    {
        let ghost pre = views(items@.take(i as int));
        assert(views(items@.take(i + 1)).drop_last() =~= pre);
        assert(views(items@.take(i + 1)).last() == items@[i as int]@);
        proof {
            lemma_dedup_members(pre);
        }
        let seen = contains_string(&out, &items[i]);
        if !seen {
            out.push(string_of(items[i].as_str()));
            assert(views(out@) =~= dedup(pre).push(items@[i as int]@));
        }
        i = i + 1;
    }
    assert(items@.take(i as int) =~= items@);
    out
}

// ---------------------------------------------------------------------------
// Labels
// ---------------------------------------------------------------------------

pub open spec fn opt_view(o: Option<String>) -> Option<Seq<char>> {
    match o {
        Some(s) => Some(s@),
        None => None,
    }
}

pub open spec fn opt_views(v: Seq<Option<String>>) -> Seq<Option<Seq<char>>> {
    v.map_values(|o: Option<String>| opt_view(o))
}

/// The present labels, in order.
pub open spec fn somes(s: Seq<Option<Seq<char>>>) -> Seq<Seq<char>>
    decreases s.len(),
{
    if s.len() == 0 {
        Seq::<Seq<char>>::empty()
    } else {
        match s.last() {
            Some(x) => somes(s.drop_last()).push(x),
            None => somes(s.drop_last()),
        }
    }
}

fn somes_exec(v: Vec<Option<String>>) -> (r: Vec<String>)
    ensures
        views(r@) == somes(opt_views(v@)),
{
    let mut out: Vec<String> = Vec::new();
    let mut i: usize = 0;
    while i < v.len()
        invariant
            i <= v@.len(),
            views(out@) == somes(opt_views(v@.take(i as int))),
        decreases v@.len() - i,
    {
        assert(opt_views(v@.take(i + 1)).drop_last() =~= opt_views(v@.take(i as int)));
        match &v[i] {
            Some(s) => {
                out.push(string_of(s.as_str()));
                assert(views(out@) =~= somes(opt_views(v@.take(i as int))).push(s@));
            },
            None => {},
        }
        i = i + 1;
    }
    assert(v@.take(i as int) =~= v@);
    out
}

fn trimmed(s: &str) -> (r: String)
    ensures
        r@ == trim(s@),
{
    let t = trim_chars(to_chars(s).as_slice());
    let mut r = String::new();
    push_chars(&mut r, t.as_slice());
    assert(r@ =~= trim(s@));
    r
}

fn lit_contains(hay: &String, lit: &str) -> (r: bool)
    ensures
        r == contains(hay@, lit@),
{
    let h = to_chars(hay.as_str());
    let p = to_chars(lit);
    contains_chars(h.as_slice(), p.as_slice())
}

/// `name (N<unit>)`.
pub open spec fn with_amount(name: Seq<char>, n: nat, unit: Seq<char>) -> Seq<char> {
    name + " ("@ + decimal(n) + unit + ")"@
}

fn push_amount(name: &String, n: u64, unit: &str) -> (r: String)
    ensures
        r@ == with_amount(name@, n as nat, unit@),
{
    let mut r = string_of(name.as_str());
    push_str(&mut r, " (");
    push_decimal(&mut r, n);
    push_str(&mut r, unit);
    push_str(&mut r, ")");
    r
}

/// A processor's trimmed name, with its core count where known.
pub open spec fn processor_label(p: ProcessorFacts) -> Option<Seq<char>> {
    match p.name {
        None => None,
        Some(n) => {
            let t = trim(n@);
            let cores = match p.number_of_cores {
                Some(c) => c,
                None => 0,
            };
            if t.len() == 0 {
                None
            } else if cores > 0 {
                Some(with_amount(t, cores as nat, "C"@))
            } else {
                Some(t)
            }
        },
    }
}

pub open spec fn processor_labels(s: Seq<ProcessorFacts>) -> Seq<Option<Seq<char>>> {
    s.map_values(|p: ProcessorFacts| processor_label(p))
}

fn processor_label_exec(p: &ProcessorFacts) -> (r: Option<String>)
    ensures
        opt_view(r) == processor_label(*p),
{
    match &p.name {
        None => None,
        Some(n) => {
            let t = trimmed(n.as_str());
            let cores: u32 = match p.number_of_cores {
                Some(c) => c,
                None => 0,
            };
            if t.as_str().unicode_len() == 0 {
                None
            } else if cores > 0 {
                Some(push_amount(&t, cores as u64, "C"))
            } else {
                Some(t)
            }
        },
    }
}

/// The processors' labels without repeats.
pub fn processor_names(ps: &Vec<ProcessorFacts>) -> (r: Vec<String>)
    ensures
        views(r@) == dedup(somes(processor_labels(ps@))),
{
    let mut labs: Vec<Option<String>> = Vec::new();
    let mut i: usize = 0;
    while i < ps.len()
        invariant
            i <= ps@.len(),
            labs@.len() == i,
            forall|k: int| 0 <= k < i ==> opt_view(#[trigger] labs@[k]) == processor_label(ps@[k]),
        decreases ps@.len() - i,
    {
        labs.push(processor_label_exec(&ps[i]));
        i = i + 1;
    }
    assert(opt_views(labs@) =~= processor_labels(ps@));
    dedup_keep_order(somes_exec(labs))
}

/// A board's manufacturer and product, trimmed and joined by a space.
pub open spec fn board_label(b: BoardFacts) -> Option<Seq<char>> {
    let maker = match b.manufacturer {
        Some(m) => trim(m@),
        None => Seq::<char>::empty(),
    };
    let model = match b.product {
        Some(m) => trim(m@),
        None => Seq::<char>::empty(),
    };
    let t = trim(maker + " "@ + model);
    if t.len() == 0 {
        None
    } else {
        Some(t)
    }
}

pub open spec fn board_labels(s: Seq<BoardFacts>) -> Seq<Option<Seq<char>>> {
    s.map_values(|b: BoardFacts| board_label(b))
}

/// The first board with a name, or `Unknown`.
pub open spec fn motherboard_text(s: Seq<BoardFacts>) -> Seq<char> {
    let c = somes(board_labels(s));
    if c.len() > 0 {
        c[0]
    } else {
        "Unknown"@
    }
}

fn opt_trimmed(o: &Option<String>) -> (r: String)
    ensures
        r@ == (match *o {
            Some(m) => trim(m@),
            None => Seq::<char>::empty(),
        }),
{
    match o {
        Some(m) => trimmed(m.as_str()),
        None => String::new(),
    }
}

fn board_label_exec(b: &BoardFacts) -> (r: Option<String>)
    ensures
        opt_view(r) == board_label(*b),
{
    let mut joined = opt_trimmed(&b.manufacturer);
    push_str(&mut joined, " ");
    let model = opt_trimmed(&b.product);
    push_str(&mut joined, model.as_str());
    let t = trimmed(joined.as_str());
    if t.as_str().unicode_len() == 0 {
        None
    } else {
        Some(t)
    }
}

proof fn lemma_somes_first(s: Seq<Option<Seq<char>>>, i: int)
    requires
        0 <= i < s.len(),
        s[i] is Some,
        forall|k: int| 0 <= k < i ==> s[k] is None,
    ensures
        somes(s).len() > 0,
        somes(s)[0] == s[i]->0,
    decreases s.len(),
{
    if i < s.len() - 1 {
        lemma_somes_first(s.drop_last(), i);
    } else {
        assert(somes(s.drop_last()).len() == 0) by {
            lemma_somes_none(s.drop_last());
        }
    }
}

proof fn lemma_somes_none(s: Seq<Option<Seq<char>>>)
    requires
        forall|k: int| 0 <= k < s.len() ==> s[k] is None,
    ensures
        somes(s).len() == 0,
    decreases s.len(),
{
    if s.len() > 0 {
        lemma_somes_none(s.drop_last());
    }
}

/// The motherboard line of the overview.
pub fn motherboard_name(bs: &Vec<BoardFacts>) -> (r: String)
    ensures
        r@ == motherboard_text(bs@),
{
    let mut i: usize = 0;
    while i < bs.len()
        invariant
            i <= bs@.len(),
            forall|k: int| 0 <= k < i ==> board_labels(bs@)[k] is None,
        decreases bs@.len() - i,
    {
        let l = board_label_exec(&bs[i]);
        match l {
            Some(t) => {
                proof {
                    lemma_somes_first(board_labels(bs@), i as int);
                }
                return t;
            },
            None => {},
        }
        i = i + 1;
    }
    proof {
        lemma_somes_none(board_labels(bs@));
    }
    string_of("Unknown")
}

/// The video-memory text: nothing for zero bytes, whole gigabytes where
/// the size rounds to at least one, else megabytes (at least one).
pub open spec fn vram_text(v: VramSize) -> Seq<char> {
    if v.bytes == 0 {
        Seq::<char>::empty()
    } else if v.gb > 0 {
        decimal(v.gb as nat) + "GB"@
    } else {
        decimal(if v.mb > 1 {
            v.mb as nat
        } else {
            1
        }) + "MB"@
    }
}

/// Formats dedicated video memory.
pub fn format_gpu_vram(v: VramSize) -> (r: String)
    ensures
        r@ == vram_text(v),
{
    if v.bytes == 0 {
        return String::new();
    }
    let mut r = String::new();
    if v.gb > 0 {
        push_decimal(&mut r, v.gb);
        push_str(&mut r, "GB");
    } else {
        let mb: u64 = if v.mb > 1 {
            v.mb
        } else {
            1
        };
        push_decimal(&mut r, mb);
        push_str(&mut r, "MB");
    }
    r
}

/// A name with its video memory in brackets, where there is any.
pub open spec fn with_vram(name: Seq<char>, v: VramSize) -> Seq<char> {
    if vram_text(v).len() == 0 {
        name
    } else {
        name + " ("@ + vram_text(v) + ")"@
    }
}

fn with_vram_exec(name: String, v: VramSize) -> (r: String)
    ensures
        r@ == with_vram(name@, v),
{
    let t = format_gpu_vram(v);
    if t.as_str().unicode_len() == 0 {
        name
    } else {
        let mut r = name;
        push_str(&mut r, " (");
        push_str(&mut r, t.as_str());
        push_str(&mut r, ")");
        r
    }
}

/// A hardware adapter's description with its video memory.
pub open spec fn adapter_label(a: AdapterFacts) -> Option<Seq<char>> {
    let n = trim(a.description@);
    if a.software || n.len() == 0 {
        None
    } else {
        Some(with_vram(n, a.vram))
    }
}

pub open spec fn adapter_labels(s: Seq<AdapterFacts>) -> Seq<Option<Seq<char>>> {
    s.map_values(|a: AdapterFacts| adapter_label(a))
}

fn adapter_label_exec(a: &AdapterFacts) -> (r: Option<String>)
    ensures
        opt_view(r) == adapter_label(*a),
{
    let n = trimmed(a.description.as_str());
    if a.software || n.as_str().unicode_len() == 0 {
        None
    } else {
        Some(with_vram_exec(n, a.vram))
    }
}

/// A video controller's trimmed name with its video memory.
pub open spec fn gpu_label(g: GpuFacts) -> Option<Seq<char>> {
    match g.name {
        None => None,
        Some(n) => {
            let t = trim(n@);
            if t.len() == 0 {
                None
            } else {
                Some(with_vram(t, g.vram))
            }
        },
    }
}

pub open spec fn gpu_labels(s: Seq<GpuFacts>) -> Seq<Option<Seq<char>>> {
    s.map_values(|g: GpuFacts| gpu_label(g))
}

fn gpu_label_exec(g: &GpuFacts) -> (r: Option<String>)
    ensures
        opt_view(r) == gpu_label(*g),
{
    match &g.name {
        None => None,
        Some(n) => {
            let t = trimmed(n.as_str());
            if t.as_str().unicode_len() == 0 {
                None
            } else {
                Some(with_vram_exec(t, g.vram))
            }
        },
    }
}

/// The graphics list: the hardware adapters DXGI reports, or, when there
/// are none, the video controllers WMI reports.
pub open spec fn graphics_list(adapters: Seq<AdapterFacts>, gpus: Seq<GpuFacts>) -> Seq<
    Seq<char>,
> {
    let dx = dedup(somes(adapter_labels(adapters)));
    if dx.len() > 0 {
        dx
    } else {
        dedup(somes(gpu_labels(gpus)))
    }
}

/// The names of the graphics adapters.
pub fn graphics_names(adapters: &Vec<AdapterFacts>, gpus: &Vec<GpuFacts>) -> (r: Vec<String>)
    ensures
        views(r@) == graphics_list(adapters@, gpus@),
{
    let mut labs: Vec<Option<String>> = Vec::new();
    let mut i: usize = 0;
    while i < adapters.len()
        invariant
            i <= adapters@.len(),
            labs@.len() == i,
            forall|k: int| 0 <= k < i ==> opt_view(#[trigger] labs@[k]) == adapter_label(adapters@[k]),
        decreases adapters@.len() - i,
    {
        labs.push(adapter_label_exec(&adapters[i]));
        i = i + 1;
    }
    assert(opt_views(labs@) =~= adapter_labels(adapters@));
    let dx = dedup_keep_order(somes_exec(labs));
    if dx.len() > 0 {
        return dx;
    }
    let mut labs2: Vec<Option<String>> = Vec::new();
    let mut j: usize = 0;
    while j < gpus.len()
        invariant
            j <= gpus@.len(),
            labs2@.len() == j,
            forall|k: int| 0 <= k < j ==> opt_view(#[trigger] labs2@[k]) == gpu_label(gpus@[k]),
        decreases gpus@.len() - j,
    {
        labs2.push(gpu_label_exec(&gpus[j]));
        j = j + 1;
    }
    assert(opt_views(labs2@) =~= gpu_labels(gpus@));
    dedup_keep_order(somes_exec(labs2))
}

/// A monitor name worth listing: not blank and not a generic placeholder.
pub open spec fn keep_monitor(t: Seq<char>) -> bool {
    &&& t.len() > 0
    &&& !eq_ignore_case(t, "Generic PnP Monitor"@)
    &&& !contains(t, "通用即插即用监视器"@)
    &&& !contains(t, "默认监视器"@)
    &&& !(starts_with(ascii_lower(t), "generic monitor"@) && !contains(t, "("@))
}

pub open spec fn monitor_label(o: Option<String>) -> Option<Seq<char>> {
    match o {
        None => None,
        Some(n) => if keep_monitor(trim(n@)) {
            Some(trim(n@))
        } else {
            None
        },
    }
}

pub open spec fn monitor_labels(s: Seq<Option<String>>) -> Seq<Option<Seq<char>>> {
    s.map_values(|o: Option<String>| monitor_label(o))
}

fn monitor_label_exec(o: &Option<String>) -> (r: Option<String>)
    ensures
        opt_view(r) == monitor_label(*o),
{
    match o {
        None => None,
        Some(n) => {
            let t = trimmed(n.as_str());
            let tc = to_chars(t.as_str());
            let lower = lower_chars(tc.as_slice());
            let generic_pnp = eq_ignore_case_chars(
                tc.as_slice(),
                to_chars("Generic PnP Monitor").as_slice(),
            );
            let keep = tc.len() > 0 && !generic_pnp && !lit_contains(&t, "通用即插即用监视器")
                && !lit_contains(&t, "默认监视器") && !(starts_with_chars(
                lower.as_slice(),
                to_chars("generic monitor").as_slice(),
            ) && !lit_contains(&t, "("));
            if keep {
                Some(t)
            } else {
                None
            }
        },
    }
}

fn monitor_label_vec(names: &Vec<Option<String>>) -> (r: Vec<Option<String>>)
    ensures
        opt_views(r@) == monitor_labels(names@),
{
    let mut labs: Vec<Option<String>> = Vec::new();
    let mut i: usize = 0;
    while i < names.len()
        invariant
            i <= names@.len(),
            labs@.len() == i,
            forall|k: int| 0 <= k < i ==> opt_view(#[trigger] labs@[k]) == monitor_label(names@[k]),
        decreases names@.len() - i,
    {
        labs.push(monitor_label_exec(&names[i]));
        i = i + 1;
    }
    assert(opt_views(labs@) =~= monitor_labels(names@));
    labs
}

/// The monitors WMI lists as desktop monitors and then as PnP monitors.
pub fn monitor_names(monitors: &Vec<Option<String>>, pnp: &Vec<Option<String>>) -> (r: Vec<String>)
    ensures
        views(r@) == dedup(somes(monitor_labels(monitors@ + pnp@))),
{
    let mut a = monitor_label_vec(monitors);
    let mut b = monitor_label_vec(pnp);
    let ghost av = a@;
    let ghost bv = b@;
    a.append(&mut b);
    assert(a@ =~= av + bv);
    assert(opt_views(a@) =~= opt_views(av) + opt_views(bv));
    assert(monitor_labels(monitors@ + pnp@) =~= monitor_labels(monitors@) + monitor_labels(pnp@));
    dedup_keep_order(somes_exec(a))
}

/// A disk drive's trimmed model with its size where known.
pub open spec fn disk_label(d: DiskFacts) -> Option<Seq<char>> {
    match d.model {
        None => None,
        Some(n) => {
            let t = trim(n@);
            if t.len() == 0 {
                None
            } else if d.size_gb > 0 {
                Some(with_amount(t, d.size_gb as nat, "GB"@))
            } else {
                Some(t)
            }
        },
    }
}

pub open spec fn disk_labels(s: Seq<DiskFacts>) -> Seq<Option<Seq<char>>> {
    s.map_values(|d: DiskFacts| disk_label(d))
}

fn disk_label_exec(d: &DiskFacts) -> (r: Option<String>)
    ensures
        opt_view(r) == disk_label(*d),
{
    match &d.model {
        None => None,
        Some(n) => {
            let t = trimmed(n.as_str());
            if t.as_str().unicode_len() == 0 {
                None
            } else if d.size_gb > 0 {
                Some(push_amount(&t, d.size_gb, "GB"))
            } else {
                Some(t)
            }
        },
    }
}

/// The names of the disk drives WMI lists.
pub fn disk_names(ds: &Vec<DiskFacts>) -> (r: Vec<String>)
    ensures
        views(r@) == dedup(somes(disk_labels(ds@))),
{
    let mut labs: Vec<Option<String>> = Vec::new();
    let mut i: usize = 0;
    while i < ds.len()
        invariant
            i <= ds@.len(),
            labs@.len() == i,
            forall|k: int| 0 <= k < i ==> opt_view(#[trigger] labs@[k]) == disk_label(ds@[k]),
        decreases ds@.len() - i,
    {
        labs.push(disk_label_exec(&ds[i]));
        i = i + 1;
    }
    assert(opt_views(labs@) =~= disk_labels(ds@));
    dedup_keep_order(somes_exec(labs))
}

/// A `Get-Disk` row: its trimmed name (else `Disk N`) with its size.
pub open spec fn ps_disk_label(d: PsDiskFacts) -> Seq<char> {
    let fallback = "Disk "@ + decimal(
        match d.number {
            Some(n) => n as nat,
            None => 0,
        },
    );
    let name = match d.name {
        Some(n) => if trim(n@).len() > 0 {
            trim(n@)
        } else {
            fallback
        },
        None => fallback,
    };
    if d.size_gb > 0 {
        with_amount(name, d.size_gb as nat, "GB"@)
    } else {
        name
    }
}

pub open spec fn ps_disk_labels(s: Seq<PsDiskFacts>) -> Seq<Seq<char>> {
    s.map_values(|d: PsDiskFacts| ps_disk_label(d))
}

fn ps_disk_label_exec(d: &PsDiskFacts) -> (r: String)
    ensures
        r@ == ps_disk_label(*d),
{
    let mut fallback = string_of("Disk ");
    let n: u32 = match d.number {
        Some(n) => n,
        None => 0,
    };
    push_decimal(&mut fallback, n as u64);
    let name = match &d.name {
        Some(x) => {
            let t = trimmed(x.as_str());
            if t.as_str().unicode_len() > 0 {
                t
            } else {
                fallback
            }
        },
        None => fallback,
    };
    if d.size_gb > 0 {
        push_amount(&name, d.size_gb, "GB")
    } else {
        name
    }
}

/// The disks `Get-Disk` lists, used when WMI lists none.
pub fn ps_disk_names(ds: &Vec<PsDiskFacts>) -> (r: Vec<String>)
    ensures
        views(r@) == ps_disk_labels(ds@),
{
    let mut labs: Vec<String> = Vec::new();
    let mut i: usize = 0;
    while i < ds.len()
        invariant
            i <= ds@.len(),
            labs@.len() == i,
            forall|k: int| 0 <= k < i ==> (#[trigger] labs@[k])@ == ps_disk_label(ds@[k]),
        decreases ds@.len() - i,
    {
        labs.push(ps_disk_label_exec(&ds[i]));
        i = i + 1;
    }
    assert(views(labs@) =~= ps_disk_labels(ds@));
    labs
}

/// A trimmed, non-blank name.
pub open spec fn plain_label(o: Option<String>) -> Option<Seq<char>> {
    match o {
        None => None,
        Some(n) => if trim(n@).len() > 0 {
            Some(trim(n@))
        } else {
            None
        },
    }
}

pub open spec fn plain_labels(s: Seq<Option<String>>) -> Seq<Option<Seq<char>>> {
    s.map_values(|o: Option<String>| plain_label(o))
}

/// The audio devices' names.
pub fn audio_names(names: &Vec<Option<String>>) -> (r: Vec<String>)
    ensures
        views(r@) == dedup(somes(plain_labels(names@))),
{
    let mut labs: Vec<Option<String>> = Vec::new();
    let mut i: usize = 0;
    while i < names.len()
        invariant
            i <= names@.len(),
            labs@.len() == i,
            forall|k: int| 0 <= k < i ==> opt_view(#[trigger] labs@[k]) == plain_label(names@[k]),
        decreases names@.len() - i,
    {
        let l = match &names[i] {
            None => None,
            Some(n) => {
                let t = trimmed(n.as_str());
                if t.as_str().unicode_len() > 0 {
                    Some(t)
                } else {
                    None
                }
            },
        };
        labs.push(l);
        i = i + 1;
    }
    assert(opt_views(labs@) =~= plain_labels(names@));
    dedup_keep_order(somes_exec(labs))
}

/// A network adapter worth listing: physical or enabled, named, and not a
/// virtual, miniport or Bluetooth PAN adapter.
pub open spec fn nic_label(n: NicFacts) -> Option<Seq<char>> {
    let active = (n.physical_adapter == Some(true)) || (n.net_enabled == Some(true));
    match n.name {
        None => None,
        Some(x) => {
            let t = trim(x@);
            let lower = ascii_lower(t);
            if active && t.len() > 0 && lower != "card"@ && !contains(lower, "virtual"@)
                && !contains(lower, "miniport"@) && !contains(
                lower,
                "bluetooth device (personal area network)"@,
            ) {
                Some(t)
            } else {
                None
            }
        },
    }
}

pub open spec fn nic_labels(s: Seq<NicFacts>) -> Seq<Option<Seq<char>>> {
    s.map_values(|n: NicFacts| nic_label(n))
}

fn nic_label_exec(n: &NicFacts) -> (r: Option<String>)
    ensures
        opt_view(r) == nic_label(*n),
{
    let active = n.physical_adapter == Some(true) || n.net_enabled == Some(true);
    match &n.name {
        None => None,
        Some(x) => {
            let t = trimmed(x.as_str());
            let tc = to_chars(t.as_str());
            let lower = lower_chars(tc.as_slice());
            let lower_s = {
                let mut s = String::new();
                push_chars(&mut s, lower.as_slice());
                s
            };
            let is_card = chars_eq(lower.as_slice(), to_chars("card").as_slice());
            if active && tc.len() > 0 && !is_card && !lit_contains(&lower_s, "virtual")
                && !lit_contains(&lower_s, "miniport") && !lit_contains(
                &lower_s,
                "bluetooth device (personal area network)",
            ) {
                Some(t)
            } else {
                None
            }
        },
    }
}

/// The network adapters' names.
pub fn network_names(nics: &Vec<NicFacts>) -> (r: Vec<String>)
    ensures
        views(r@) == dedup(somes(nic_labels(nics@))),
{
    let mut labs: Vec<Option<String>> = Vec::new();
    let mut i: usize = 0;
    while i < nics.len()
        invariant
            i <= nics@.len(),
            labs@.len() == i,
            forall|k: int| 0 <= k < i ==> opt_view(#[trigger] labs@[k]) == nic_label(nics@[k]),
        decreases nics@.len() - i,
    {
        labs.push(nic_label_exec(&nics[i]));
        i = i + 1;
    }
    assert(opt_views(labs@) =~= nic_labels(nics@));
    dedup_keep_order(somes_exec(labs))
}


// ---------------------------------------------------------------------------
// Memory
// ---------------------------------------------------------------------------

/// A number in text as WMI gives it: trimmed and parsed, or else the
/// digits it holds parsed (`None` for blank text or text without digits).
pub open spec fn spec_parse_u64_text(value: Option<Seq<char>>) -> Option<u64> {
    match value {
        None => None,
        Some(v) => {
            let raw = trim(v);
            if raw.len() == 0 {
                None
            } else if parse_u64(raw) is Some {
                parse_u64(raw)
            } else if keep_digits(raw).len() == 0 {
                None
            } else {
                parse_u64(keep_digits(raw))
            }
        },
    }
}

/// Parses a number that WMI reports as text.
pub fn parse_u64_text(value: Option<&str>) -> (r: Option<u64>)
    ensures
        r == spec_parse_u64_text(match value {
            Some(v) => Some(v@),
            None => None,
        }),
{
    match value {
        None => None,
        Some(v) => {
            let raw = trim_chars(to_chars(v).as_slice());
            if raw.len() == 0 {
                return None;
            }
            let direct = parse_u64_chars(raw.as_slice());
            if direct.is_some() {
                return direct;
            }
            let digits = keep_digits_chars(raw.as_slice());
            if digits.len() == 0 {
                None
            } else {
                parse_u64_chars(digits.as_slice())
            }
        },
    }
}

/// The installed memory in bytes, from the kilobyte count Windows reports
/// (saturating); nothing when the call failed or reported zero.
pub fn installed_memory_bytes(ok: bool, total_kb: u64) -> (r: Option<u64>)
    ensures
        r == (if ok && total_kb > 0 {
            Some(
                if total_kb * 1024 > u64::MAX {
                    u64::MAX
                } else {
                    (total_kb * 1024) as u64
                },
            )
        } else {
            None
        }),
{
    if ok && total_kb > 0 {
        if total_kb > u64::MAX / 1024 {
            Some(u64::MAX)
        } else {
            Some(total_kb * 1024)
        }
    } else {
        None
    }
}

/// The name of an SMBIOS memory type code.
pub open spec fn spec_memory_type_name(code: u16) -> Seq<char> {
    if code == 20 {
        "DDR"@
    } else if code == 21 {
        "DDR2"@
    } else if code == 24 {
        "DDR3"@
    } else if code == 26 {
        "DDR4"@
    } else if code == 34 {
        "DDR5"@
    } else {
        "Unknown"@
    }
}

/// A code that `memory_type_name` knows.
pub open spec fn known_memory_type(code: u16) -> bool {
    code == 20 || code == 21 || code == 24 || code == 26 || code == 34
}

/// Names an SMBIOS memory type code.
pub fn memory_type_name(code: u16) -> (r: &'static str)
    ensures
        r@ == spec_memory_type_name(code),
{
    match code {
        20 => "DDR",
        21 => "DDR2",
        24 => "DDR3",
        26 => "DDR4",
        34 => "DDR5",
        _ => "Unknown",
    }
}

/// The module sizes that round to at least one gigabyte.
pub open spec fn module_gbs(ms: Seq<MemoryFacts>) -> Seq<u64>
    decreases ms.len(),
{
    if ms.len() == 0 {
        Seq::<u64>::empty()
    } else {
        let p = module_gbs(ms.drop_last());
        match ms.last().capacity_gb {
            Some(g) => if g > 0 {
                p.push(g)
            } else {
                p
            },
            None => p,
        }
    }
}

pub open spec fn sum_u64(s: Seq<u64>) -> nat
    decreases s.len(),
{
    if s.len() == 0 {
        0
    } else {
        sum_u64(s.drop_last()) + s.last() as nat
    }
}

/// A module's clock: the configured speed, else the rated speed.
pub open spec fn module_clock(m: MemoryFacts) -> Option<u32> {
    match m.configured_clock_speed {
        Some(c) => Some(c),
        None => m.speed,
    }
}

/// The highest clock over the modules.
pub open spec fn max_clock(ms: Seq<MemoryFacts>) -> Option<u32>
    decreases ms.len(),
{
    if ms.len() == 0 {
        None
    } else {
        let p = max_clock(ms.drop_last());
        match (p, module_clock(ms.last())) {
            (None, v) => v,
            (Some(a), None) => Some(a),
            (Some(a), Some(b)) => Some(
                if a > b {
                    a
                } else {
                    b
                },
            ),
        }
    }
}

/// A module's type code: the SMBIOS one, else the legacy one.
pub open spec fn module_type(m: MemoryFacts) -> Option<u16> {
    match m.smbios_memory_type {
        Some(c) => Some(c),
        None => m.memory_type,
    }
}

/// The type code of the first module that has one.
pub open spec fn first_type(ms: Seq<MemoryFacts>) -> Option<u16>
    decreases ms.len(),
{
    if ms.len() == 0 {
        None
    } else {
        let p = first_type(ms.drop_last());
        if p is Some {
            p
        } else {
            module_type(ms.last())
        }
    }
}

/// The memory type shown: the first module's type name, else `RAM`.
pub open spec fn type_text(ms: Seq<MemoryFacts>) -> Seq<char> {
    match first_type(ms) {
        Some(c) => spec_memory_type_name(c),
        None => "RAM"@,
    }
}

/// The modules as `8GB + 8GB`.
pub open spec fn modules_text(gbs: Seq<u64>) -> Seq<char> {
    join(gbs.map_values(|g: u64| decimal(g as nat) + "GB"@), " + "@)
}

/// The memory line of the overview.
pub open spec fn memory_summary_text(ms: Seq<MemoryFacts>, fallback_total_gb: Option<u64>) -> Seq<
    char,
> {
    let gbs = module_gbs(ms);
    let mt = type_text(ms);
    let named = first_type(ms) matches Some(c) && known_memory_type(c);
    if gbs.len() == 0 {
        match fallback_total_gb {
            None => "Unknown"@,
            Some(t) => {
                let head = decimal(t as nat) + "GB "@ + (if named {
                    mt
                } else {
                    "RAM"@
                });
                match max_clock(ms) {
                    Some(m) => head + " "@ + decimal(m as nat) + "MHz"@,
                    None => head,
                }
            },
        }
    } else {
        let unknown = first_type(ms) matches Some(c) && !known_memory_type(c);
        let head = decimal(sum_u64(gbs)) + "GB "@ + (if unknown {
            "RAM"@
        } else {
            mt
        });
        let tail = " ("@ + modules_text(gbs) + ")"@;
        match max_clock(ms) {
            Some(m) => head + " "@ + decimal(m as nat) + "MHz"@ + tail,
            None => head + tail,
        }
    }
}

proof fn lemma_sum_prefix(s: Seq<u64>, i: int)
    requires
        0 <= i <= s.len(),
    ensures
        sum_u64(s.take(i)) <= sum_u64(s),
    decreases s.len() - i,
{
    if i < s.len() {
        lemma_sum_prefix(s, i + 1);
        assert(s.take(i + 1).drop_last() =~= s.take(i));
    } else {
        assert(s.take(i) =~= s);
    }
}

/// The memory line: total size, type and clock, and the modules' sizes
/// (or, where no module size is known, the installed total).
pub fn format_memory_summary(memories: &Vec<MemoryFacts>, fallback_total_gb: Option<u64>) -> (r:
    String)
    requires
        sum_u64(module_gbs(memories@)) <= u64::MAX,
    ensures
        r@ == memory_summary_text(memories@, fallback_total_gb),
{
    let mut gbs: Vec<u64> = Vec::new();
    let mut total: u64 = 0;
    let mut clock: Option<u32> = None;
    let mut mtype: Option<u16> = None;
    let mut i: usize = 0;
    while i < memories.len()
        invariant
            i <= memories@.len(),
            gbs@ == module_gbs(memories@.take(i as int)),
            total == sum_u64(gbs@),
            sum_u64(module_gbs(memories@)) <= u64::MAX,
            clock == max_clock(memories@.take(i as int)),
            mtype == first_type(memories@.take(i as int)),
        decreases memories@.len() - i,
    {
        let m = &memories[i];
        assert(memories@.take(i + 1).drop_last() =~= memories@.take(i as int));
        assert(memories@.take(i + 1).last() == memories@[i as int]);
        proof {
            lemma_module_gbs_prefix(memories@, i + 1);
            let l = module_gbs(memories@.take(i + 1)).len() as int;
            lemma_sum_prefix(module_gbs(memories@), l);
            assert(sum_u64(module_gbs(memories@.take(i + 1))) <= u64::MAX);
        }
        match m.capacity_gb {
            Some(g) => {
                if g > 0 {
                    assert(gbs@.push(g).drop_last() =~= gbs@);
                    assert(module_gbs(memories@.take(i + 1)) == gbs@.push(g));
                    assert(sum_u64(gbs@.push(g)) == total + g);
                    gbs.push(g);
                    total = total + g;
                }
            },
            None => {},
        }
        let c: Option<u32> = match m.configured_clock_speed {
            Some(x) => Some(x),
            None => m.speed,
        };
        clock = match (clock, c) {
            (None, v) => v,
            (Some(a), None) => Some(a),
            (Some(a), Some(b)) => Some(
                if a > b {
                    a
                } else {
                    b
                },
            ),
        };
        if mtype.is_none() {
            mtype = match m.smbios_memory_type {
                Some(x) => Some(x),
                None => m.memory_type,
            };
        }
        i = i + 1;
    }
    assert(memories@.take(i as int) =~= memories@);
    let (named, unknown) = match mtype {
        Some(c) => {
            let known = c == 20 || c == 21 || c == 24 || c == 26 || c == 34;
            (known, !known)
        },
        None => (false, false),
    };
    let mut r = String::new();
    if gbs.len() == 0 {
        match fallback_total_gb {
            None => {
                return string_of("Unknown");
            },
            Some(t) => {
                push_decimal(&mut r, t);
                push_str(&mut r, "GB ");
                if named {
                    push_str(&mut r, memory_type_name(mtype.unwrap()));
                } else {
                    push_str(&mut r, "RAM");
                }
                match clock {
                    Some(m) => {
                        push_str(&mut r, " ");
                        push_decimal(&mut r, m as u64);
                        push_str(&mut r, "MHz");
                    },
                    None => {},
                }
                return r;
            },
        }
    }
    push_decimal(&mut r, total);
    push_str(&mut r, "GB ");
    if unknown {
        push_str(&mut r, "RAM");
    } else {
        match mtype {
            Some(c) => push_str(&mut r, memory_type_name(c)),
            None => push_str(&mut r, "RAM"),
        }
    }
    match clock {
        Some(m) => {
            push_str(&mut r, " ");
            push_decimal(&mut r, m as u64);
            push_str(&mut r, "MHz");
        },
        None => {},
    }
    push_str(&mut r, " (");
    let parts = module_texts(&gbs);
    let mods = join_strings(&parts, " + ");
    push_str(&mut r, mods.as_str());
    push_str(&mut r, ")");
    r
}

proof fn lemma_module_gbs_prefix(ms: Seq<MemoryFacts>, i: int)
    requires
        0 <= i <= ms.len(),
    ensures
        module_gbs(ms.take(i)).len() <= module_gbs(ms).len(),
        module_gbs(ms.take(i)) =~= module_gbs(ms).take(module_gbs(ms.take(i)).len() as int),
    decreases ms.len() - i,
{
    if i < ms.len() {
        lemma_module_gbs_prefix(ms, i + 1);
        assert(ms.take(i + 1).drop_last() =~= ms.take(i));
    } else {
        assert(ms.take(i) =~= ms);
    }
}

fn module_texts(gbs: &Vec<u64>) -> (r: Vec<String>)
    ensures
        views(r@) == gbs@.map_values(|g: u64| decimal(g as nat) + "GB"@),
{
    let mut out: Vec<String> = Vec::new();
    let mut i: usize = 0;
    while i < gbs.len()
        invariant
            i <= gbs@.len(),
            out@.len() == i,
            forall|k: int| 0 <= k < i ==> (#[trigger] out@[k])@ == decimal(gbs@[k] as nat) + "GB"@,
        decreases gbs@.len() - i,
    {
        let mut t = String::new();
        push_decimal(&mut t, gbs[i]);
        push_str(&mut t, "GB");
        out.push(t);
        i = i + 1;
    }
    assert(views(out@) =~= gbs@.map_values(|g: u64| decimal(g as nat) + "GB"@));
    out
}

// ---------------------------------------------------------------------------
// The overview
// ---------------------------------------------------------------------------

/// The disk list: the drives WMI reports, or those `Get-Disk` reports when
/// WMI names none.
pub open spec fn disk_list(disks: Seq<DiskFacts>, ps_disks: Seq<PsDiskFacts>) -> Seq<Seq<char>> {
    let d = dedup(somes(disk_labels(disks)));
    if d.len() > 0 {
        d
    } else {
        dedup(ps_disk_labels(ps_disks))
    }
}

/// Assembles the hardware overview from what the system reported.
pub fn hardware_overview(facts: &HardwareFacts) -> (r: HardwareOverview)
    requires
        sum_u64(module_gbs(facts.memories@)) <= u64::MAX,
    ensures
        views(r.processors@) == dedup(somes(processor_labels(facts.processors@))),
        r.motherboard@ == motherboard_text(facts.boards@),
        r.memory_summary@ == memory_summary_text(facts.memories@, facts.installed_memory_gb),
        views(r.graphics@) == graphics_list(facts.adapters@, facts.gpus@),
        views(r.monitors@) == dedup(somes(monitor_labels(facts.monitors@ + facts.pnp_monitors@))),
        views(r.disks@) == disk_list(facts.disks@, facts.ps_disks@),
        views(r.audio_devices@) == dedup(somes(plain_labels(facts.audio_devices@))),
        views(r.network_adapters@) == dedup(somes(nic_labels(facts.nics@))),
{
    let processors = processor_names(&facts.processors);
    let motherboard = motherboard_name(&facts.boards);
    let memory_summary = format_memory_summary(&facts.memories, facts.installed_memory_gb);
    let graphics = graphics_names(&facts.adapters, &facts.gpus);
    let monitors = monitor_names(&facts.monitors, &facts.pnp_monitors);
    let mut disks = disk_names(&facts.disks);
    if disks.len() == 0 {
        disks = dedup_keep_order(ps_disk_names(&facts.ps_disks));
    }
    let audio_devices = audio_names(&facts.audio_devices);
    let network_adapters = network_names(&facts.nics);
    HardwareOverview {
        processors,
        motherboard,
        memory_summary,
        graphics,
        monitors,
        disks,
        audio_devices,
        network_adapters,
    }
}

} // verus!

//! Where `smartctl` is looked for on Windows: the copy bundled with the
//! program first, then development layouts under the working directory,
//! then the PATH and the usual install folders.

use crate::boot::strs;
use crate::text::{ascii_lower, chars_eq, lower_chars, push_str, string_of, to_chars};
use vstd::prelude::*;

verus! {

/// `base` joined with `comp` the way a Windows path is joined: a `\` is put
/// between them unless `base` is empty or already ends with a separator.
pub open spec fn win_join(base: Seq<char>, comp: Seq<char>) -> Seq<char> {
    if base.len() == 0 {
        comp
    } else if base.last() == '\\' || base.last() == '/' {
        base + comp
    } else {
        base + "\\"@ + comp
    }
}

/// `base` joined with each of `comps` in turn.
pub open spec fn win_join_all(base: Seq<char>, comps: Seq<Seq<char>>) -> Seq<char>
    decreases comps.len(),
{
    if comps.len() == 0 {
        base
    } else {
        win_join(win_join_all(base, comps.drop_last()), comps.last())
    }
}

/// The bundled copies, relative to the program's folder, in order.
pub open spec fn bundled_layouts() -> Seq<Seq<Seq<char>>> {
    seq![
        seq!["smartmontools"@, "bin"@, "smartctl.exe"@],
        seq!["resources"@, "smartmontools"@, "bin"@, "smartctl.exe"@],
        seq![".."@, "resources"@, "smartmontools"@, "bin"@, "smartctl.exe"@],
        seq!["resources"@, "smartctl"@, "smartctl.exe"@],
        seq![".."@, "resources"@, "smartctl"@, "smartctl.exe"@],
        seq!["smartctl.exe"@],
    ]
}

/// The development layouts, relative to the working directory, in order.
pub open spec fn dev_layouts() -> Seq<Seq<Seq<char>>> {
    seq![
        seq!["src-tauri"@, "resources"@, "smartmontools"@, "bin"@, "smartctl.exe"@],
        seq!["smartmontools"@, "bin"@, "smartctl.exe"@],
        seq!["useable_software"@, "smartmontools"@, "bin"@, "smartctl.exe"@],
    ]
}

/// The commands and install paths tried last.
pub open spec fn fallback_candidates() -> Seq<Seq<char>> {
    seq![
        "smartctl"@,
        "smartctl.exe"@,
        "C:\\Program Files\\smartmontools\\bin\\smartctl.exe"@,
        "C:\\Program Files (x86)\\smartmontools\\bin\\smartctl.exe"@,
    ]
}

/// Each layout joined onto `base`.
pub open spec fn under(base: Seq<char>, layouts: Seq<Seq<Seq<char>>>) -> Seq<Seq<char>> {
    layouts.map_values(|l: Seq<Seq<char>>| win_join_all(base, l))
}

/// Every place smartctl is looked for, bundled copies first.
pub open spec fn spec_smartctl_candidates(exe_dir: Option<Seq<char>>, cwd: Option<Seq<char>>) -> Seq<
    Seq<char>,
> {
    (match exe_dir {
        Some(d) => under(d, bundled_layouts()),
        None => Seq::empty(),
    }) + (match cwd {
        Some(c) => under(c, dev_layouts()),
        None => Seq::empty(),
    }) + fallback_candidates()
}

fn join_one(base: &String, comp: &str) -> (r: String)
    ensures
        r@ == win_join(base@, comp@),
{
    let b = to_chars(base.as_str());
    let mut r = string_of(base.as_str());
    if b.len() > 0 && b[b.len() - 1] != '\\' && b[b.len() - 1] != '/' {
        push_str(&mut r, "\\");
    }
    push_str(&mut r, comp);
    r
}

fn join_path(base: &str, comps: &Vec<&str>) -> (r: String)
    ensures
        r@ == win_join_all(base@, comps@.map_values(|c: &str| c@)),
{
    let ghost cs = comps@.map_values(|c: &str| c@);
    let mut r = string_of(base);
    let mut i: usize = 0;
    while i < comps.len()
        invariant
            i <= comps@.len(),
            cs == comps@.map_values(|c: &str| c@),
            r@ == win_join_all(base@, cs.take(i as int)),
        decreases comps@.len() - i,
    {
        assert(cs.take(i + 1).drop_last() =~= cs.take(i as int));
        r = join_one(&r, comps[i]);
        i = i + 1;
    }
    assert(cs.take(i as int) =~= cs);
    r
}

fn push_layout(out: &mut Vec<String>, base: &str, comps: Vec<&str>)
    ensures
        strs(final(out)@) == strs(old(out)@).push(
            win_join_all(base@, comps@.map_values(|c: &str| c@)),
        ),
{
    let p = join_path(base, &comps);
    out.push(p);
    assert(strs(out@) =~= strs(old(out)@).push(
        win_join_all(base@, comps@.map_values(|c: &str| c@)),
    ));
}

fn push_bundled(out: &mut Vec<String>, d: &str)
    ensures
        strs(final(out)@) == strs(old(out)@) + under(d@, bundled_layouts()),
{
    let ghost o = strs(out@);
    push_layout(out, d, vec!["smartmontools", "bin", "smartctl.exe"]);
    push_layout(out, d, vec!["resources", "smartmontools", "bin", "smartctl.exe"]);
    push_layout(out, d, vec!["..", "resources", "smartmontools", "bin", "smartctl.exe"]);
    push_layout(out, d, vec!["resources", "smartctl", "smartctl.exe"]);
    push_layout(out, d, vec!["..", "resources", "smartctl", "smartctl.exe"]);
    push_layout(out, d, vec!["smartctl.exe"]);
    assert(strs(out@) =~= o + under(d@, bundled_layouts())) by {
        reveal_with_fuel(win_join_all, 6);
    }
}

fn push_dev(out: &mut Vec<String>, c: &str)
    ensures
        strs(final(out)@) == strs(old(out)@) + under(c@, dev_layouts()),
{
    let ghost o = strs(out@);
    push_layout(out, c, vec!["src-tauri", "resources", "smartmontools", "bin", "smartctl.exe"]);
    push_layout(out, c, vec!["smartmontools", "bin", "smartctl.exe"]);
    push_layout(out, c, vec!["useable_software", "smartmontools", "bin", "smartctl.exe"]);
    assert(strs(out@) =~= o + under(c@, dev_layouts())) by {
        reveal_with_fuel(win_join_all, 6);
    }
}

/// Every place smartctl is looked for, from the program's folder and the
/// working directory (each where it could be found): the bundled copies,
/// the development layouts, then the PATH and the install folders.
pub fn smartctl_candidate_list(exe_dir: Option<&str>, cwd: Option<&str>) -> (r: Vec<String>)
    ensures
        strs(r@) == spec_smartctl_candidates(
            match exe_dir {
                Some(d) => Some(d@),
                None => None,
            },
            match cwd {
                Some(c) => Some(c@),
                None => None,
            },
        ),
{
    let mut out: Vec<String> = Vec::new();
    match exe_dir {
        Some(d) => push_bundled(&mut out, d),
        None => {},
    }
    let ghost first = strs(out@);
    match cwd {
        Some(c) => push_dev(&mut out, c),
        None => {},
    }
    let ghost mid = strs(out@);
    out.push(string_of("smartctl"));
    out.push(string_of("smartctl.exe"));
    out.push(string_of("C:\\Program Files\\smartmontools\\bin\\smartctl.exe"));
    out.push(string_of("C:\\Program Files (x86)\\smartmontools\\bin\\smartctl.exe"));
    assert(strs(out@) =~= mid + fallback_candidates());
    assert(first =~= (match exe_dir {
        Some(d) => under(d@, bundled_layouts()),
        None => Seq::<Seq<char>>::empty(),
    }));
    assert(mid =~= first + (match cwd {
        Some(c) => under(c@, dev_layouts()),
        None => Seq::<Seq<char>>::empty(),
    }));
    out
}

/// A candidate that names a path (it holds a separator) rather than a
/// command looked up on the PATH.
pub open spec fn is_path(s: Seq<char>) -> bool {
    s.contains('\\') || s.contains('/')
}

/// Whether `s` is already among `kept`, ignoring ASCII case.
pub open spec fn seen_ignoring_case(kept: Seq<Seq<char>>, s: Seq<char>) -> bool {
    exists|k: int| 0 <= k < kept.len() && ascii_lower(#[trigger] kept[k]) == ascii_lower(s)
}

/// The candidates that are worth trying, in order: a path only where it
/// exists, a command name always, and each (ignoring case) once.
pub open spec fn spec_filter_candidates(c: Seq<Seq<char>>, exists: Seq<bool>) -> Seq<Seq<char>>
    decreases c.len(),
{
    if c.len() == 0 {
        c
    } else {
        let prev = spec_filter_candidates(c.drop_last(), exists.take(c.len() - 1));
        let x = c.last();
        if (!is_path(x) || exists[c.len() - 1]) && !seen_ignoring_case(prev, x) {
            prev.push(x)
        } else {
            prev
        }
    }
}

fn is_path_exec(s: &[char]) -> (r: bool)
    ensures
        r == is_path(s@),
{
    let mut i: usize = 0;
    while i < s.len()
        invariant
            i <= s@.len(),
            forall|k: int| 0 <= k < i ==> s@[k] != '\\' && s@[k] != '/',
        decreases s@.len() - i,
    {
        if s[i] == '\\' || s[i] == '/' {
            assert(s@.contains(s@[i as int]));
            return true;
        }
        i = i + 1;
    }
    false
}

/// The candidates to try, given for each whether it exists on disk (read
/// only for paths): missing paths are dropped, command names kept, and
/// repeats ignoring ASCII case removed, first one kept.
pub fn filter_smartctl_candidates(c: &Vec<String>, exists: &Vec<bool>) -> (r: Vec<String>)
    requires
        c@.len() == exists@.len(),
    ensures
        strs(r@) == spec_filter_candidates(strs(c@), exists@),
{
    let mut out: Vec<String> = Vec::new();
    let mut keys: Vec<Vec<char>> = Vec::new();
    let mut i: usize = 0;
    while i < c.len()
        invariant
            i <= c@.len(),
            c@.len() == exists@.len(),
            strs(out@) == spec_filter_candidates(strs(c@).take(i as int), exists@.take(i as int)),
            keys@.len() == out@.len(),
            forall|k: int| 0 <= k < keys@.len() ==> (#[trigger] keys@[k])@ == ascii_lower(out@[k]@),
        decreases c@.len() - i,
    {
        let ghost prev = strs(out@);
        proof {
            assert(strs(c@).take(i + 1).drop_last() =~= strs(c@).take(i as int));
            assert(exists@.take(i + 1).take(i as int) =~= exists@.take(i as int));
            assert(strs(c@).take(i + 1).last() == c@[i as int]@);
        }
        let chars = to_chars(c[i].as_str());
        let key = lower_chars(chars.as_slice());
        let mut seen = false;
        let mut j: usize = 0;
        while j < keys.len()
            invariant
                j <= keys@.len(),
                keys@.len() == out@.len(),
                prev == strs(out@),
                forall|k: int| 0 <= k < keys@.len() ==> (#[trigger] keys@[k])@ == ascii_lower(out@[k]@),
                key@ == ascii_lower(c@[i as int]@),
                seen ==> seen_ignoring_case(prev, c@[i as int]@),
                !seen ==> forall|k: int| 0 <= k < j ==> ascii_lower(#[trigger] prev[k]) != key@,
            decreases keys@.len() - j,
        {
            if !seen && chars_eq(keys[j].as_slice(), key.as_slice()) {
                seen = true;
                assert(ascii_lower(prev[j as int]) == ascii_lower(c@[i as int]@));
            }
            j = j + 1;
        }
        let keep = (!is_path_exec(chars.as_slice()) || exists[i]) && !seen;
        if keep {
            out.push(string_of(c[i].as_str()));
            keys.push(key);
            assert(strs(out@) =~= prev.push(c@[i as int]@));
        }
        i = i + 1;
    }
    assert(strs(c@).take(i as int) =~= strs(c@));
    assert(exists@.take(i as int) =~= exists@);
    out
}

/// Every candidate kept was offered, no two kept ones are equal ignoring
/// ASCII case, and a command name (not a path) is always tried unless the
/// same name came earlier.
pub proof fn law_candidates_once(c: Seq<Seq<char>>, exists: Seq<bool>)
    requires
        c.len() == exists.len(),
    ensures
        forall|i: int, j: int|
            0 <= i < j < spec_filter_candidates(c, exists).len() ==> ascii_lower(
                #[trigger] spec_filter_candidates(c, exists)[i],
            ) != ascii_lower(#[trigger] spec_filter_candidates(c, exists)[j]),
        forall|j: int|
            0 <= j < spec_filter_candidates(c, exists).len() ==> c.contains(
                #[trigger] spec_filter_candidates(c, exists)[j],
            ),
        forall|i: int|
            #![trigger c[i]]
            0 <= i < c.len() && !is_path(c[i]) ==> seen_ignoring_case(
                spec_filter_candidates(c, exists),
                c[i],
            ),
    decreases c.len(),
{
    if c.len() > 0 {
        let p = c.drop_last();
        let pe = exists.take(c.len() - 1);
        law_candidates_once(p, pe);
        let d = spec_filter_candidates(p, pe);
        let x = c.last();
        assert forall|j: int| 0 <= j < d.len() implies c.contains(#[trigger] d[j]) by {
            let k = choose|k: int| 0 <= k < p.len() && p[k] == d[j];
            assert(c[k] == p[k]);
        }
        if (!is_path(x) || exists[c.len() - 1]) && !seen_ignoring_case(d, x) {
            let n = d.push(x);
            assert(spec_filter_candidates(c, exists) == n);
            assert forall|i: int, j: int| 0 <= i < j < n.len() implies ascii_lower(#[trigger] n[i])
                != ascii_lower(#[trigger] n[j]) by {
                assert(n[i] == d[i]);
                if j < d.len() {
                    assert(n[j] == d[j]);
                }
            }
            assert forall|j: int| 0 <= j < n.len() implies c.contains(#[trigger] n[j]) by {
                if j < d.len() {
                    assert(n[j] == d[j]);
                } else {
                    assert(c[c.len() - 1] == x);
                }
            }
            assert forall|i: int| #![trigger c[i]] 0 <= i < c.len() && !is_path(c[i]) implies seen_ignoring_case(
                n,
                c[i],
            ) by {
                if i < c.len() - 1 {
                    assert(c[i] == p[i]);
                    let k = choose|k: int| 0 <= k < d.len() && ascii_lower(#[trigger] d[k]) == ascii_lower(
                        p[i],
                    );
                    assert(n[k] == d[k]);
                } else {
                    assert(n[d.len() as int] == x);
                }
            }
        } else {
            assert(spec_filter_candidates(c, exists) == d);
            assert forall|i: int| #![trigger c[i]] 0 <= i < c.len() && !is_path(c[i]) implies seen_ignoring_case(
                d,
                c[i],
            ) by {
                if i < c.len() - 1 {
                    assert(c[i] == p[i]);
                }
            }
        }
    }
}

} // verus!

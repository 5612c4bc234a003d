//! Runtime discovery: builds the ordered candidate directory list from
//! environment values, derives the probe paths for each candidate, and picks
//! the first probe that exists on disk. Which paths exist enters as plain
//! data, so the whole search order is verified.

use vstd::prelude::*;
use vstd::string::StringExecFns;
use crate::errors::LaunchError;
use crate::text::lemma_views_push;
use crate::text::lowercase;
use crate::text::lower_of;
use crate::text::seq_contains;
use crate::text::split_paths;
use crate::text::split_semi;
use crate::text::str_contains;
use crate::text::views;

verus! {

/// A search-path entry is kept when its lowercase form contains "java".
pub open spec fn has_java(p: Seq<char>) -> bool {
    seq_contains(lower_of(p), "java"@)
}

/// The entries whose lowercase form contains "java", in their original order.
pub open spec fn java_filtered(s: Seq<Seq<char>>) -> Seq<Seq<char>>
    decreases s.len(),
{
    if s.len() == 0 {
        Seq::<Seq<char>>::empty()
    } else if has_java(s.last()) {
        java_filtered(s.drop_last()).push(s.last())
    } else {
        java_filtered(s.drop_last())
    }
}

/// Keeps the entries whose lowercase form contains "java".
pub fn filter_java_paths(entries: &Vec<String>) -> (r: Vec<String>)
    ensures
        views(r@) == java_filtered(views(entries@)),
{
    let mut r: Vec<String> = Vec::new();
    proof {
        assert(views(r@) =~= Seq::<Seq<char>>::empty());
        assert(views(entries@).take(0) =~= Seq::<Seq<char>>::empty());
    }
    let mut i: usize = 0;
    while i < entries.len()
        invariant
            i <= entries@.len(),
            views(r@) == java_filtered(views(entries@).take(i as int)),
        decreases entries@.len() - i,
    {
        proof {
            assert(views(entries@).take(i + 1).drop_last() =~= views(entries@).take(i as int));
            assert(views(entries@).take(i + 1).last() == entries@[i as int]@);
        }
        let low = lowercase(&entries[i]);
        if str_contains(low.as_str(), "java") {
            let ghost before = r@;
            r.push(entries[i].clone());
            proof {
                lemma_views_push(before, r@[before.len() as int]);
            }
        }
        i += 1;
    }
    proof {
        assert(views(entries@).take(entries@.len() as int) =~= views(entries@));
    }
    r
}

/// The candidate directories drawn from the environment: the runtime-home
/// value first, then every search-path entry whose lowercase form contains
/// "java", in their original order.
pub open spec fn candidates_spec(home: Option<Seq<char>>, search: Option<Seq<char>>) -> Seq<
    Seq<char>,
> {
    (match home {
        Some(h) => seq![h],
        None => Seq::<Seq<char>>::empty(),
    }) + (match search {
        Some(p) => java_filtered(split_semi(p)),
        None => Seq::<Seq<char>>::empty(),
    })
}

/// Builds the candidate directory list from the two environment values.
pub fn candidate_paths(home: Option<String>, search: Option<String>) -> (r: Vec<String>)
    ensures
        ({
            let h = match home {
                Some(s) => Some(s@),
                None => None,
            };
            let p = match search {
                Some(s) => Some(s@),
                None => None,
            };
            views(r@) == candidates_spec(h, p)
        }),
{
    let mut r: Vec<String> = Vec::new();
    proof {
        assert(views(r@) =~= Seq::<Seq<char>>::empty());
    }
    if let Some(h) = home {
        let ghost before = r@;
        r.push(h);
        proof {
            lemma_views_push(before, r@[before.len() as int]);
        }
    }
    if let Some(p) = search {
        let parts = split_paths(p.as_str());
        let mut kept = filter_java_paths(&parts);
        let ghost before = r@;
        let ghost more = kept@;
        r.append(&mut kept);
        proof {
            assert(views(before + more) =~= views(before) + views(more));
        }
    }
    proof {
        assert(Seq::<Seq<char>>::empty() + java_filtered(split_semi(match search {
            Some(s) => s@,
            None => Seq::empty(),
        })) =~= java_filtered(split_semi(match search {
            Some(s) => s@,
            None => Seq::empty(),
        })));
    }
    r
}

/// The two probe paths for one candidate directory: the executable directly
/// in it, and the executable under its `bin` subdirectory.
pub open spec fn probes_of_dir(dir: Seq<char>, exe: Seq<char>) -> Seq<Seq<char>> {
    seq![dir + "\\"@ + exe, dir + "\\bin\\"@ + exe]
}

/// Every probe path of the candidate list, in search order.
pub open spec fn probes_of(dirs: Seq<Seq<char>>, exe: Seq<char>) -> Seq<Seq<char>>
    decreases dirs.len(),
{
    if dirs.len() == 0 {
        Seq::<Seq<char>>::empty()
    } else {
        probes_of(dirs.drop_last(), exe) + probes_of_dir(dirs.last(), exe)
    }
}

/// Builds the ordered probe list for the candidate directories.
pub fn probe_paths(dirs: &Vec<String>, exe: &str) -> (r: Vec<String>)
    ensures
        views(r@) == probes_of(views(dirs@), exe@),
{
    let mut r: Vec<String> = Vec::new();
    proof {
        assert(views(r@) =~= Seq::<Seq<char>>::empty());
        assert(views(dirs@).take(0) =~= Seq::<Seq<char>>::empty());
    }
    let mut i: usize = 0;
    while i < dirs.len()
        invariant
            i <= dirs@.len(),
            views(r@) == probes_of(views(dirs@).take(i as int), exe@),
        decreases dirs@.len() - i,
    {
        proof {
            assert(views(dirs@).take(i + 1).drop_last() =~= views(dirs@).take(i as int));
            assert(views(dirs@).take(i + 1).last() == dirs@[i as int]@);
        }
        let mut p1 = dirs[i].clone();
        p1.append("\\");
        p1.append(exe);
        let mut p2 = dirs[i].clone();
        p2.append("\\bin\\");
        p2.append(exe);
        let ghost before = r@;
        r.push(p1);
        proof {
            lemma_views_push(before, r@[before.len() as int]);
        }
        let ghost before2 = r@;
        r.push(p2);
        proof {
            lemma_views_push(before2, r@[before2.len() as int]);
            assert(views(r@) =~= probes_of(views(dirs@).take(i as int), exe@) + probes_of_dir(
                dirs@[i as int]@,
                exe@,
            ));
        }
        i += 1;
    }
    proof {
        assert(views(dirs@).take(dirs@.len() as int) =~= views(dirs@));
    }
    r
}

/// Returns the first probe whose flag is set, the flags aligned index for
/// index with the probes; `None` exactly when no flag is set.
pub fn first_match(probes: &Vec<String>, on_disk: &Vec<bool>) -> (r: Option<String>)
    requires
        on_disk@.len() == probes@.len(),
    ensures
        r matches Some(p) ==> exists|j: int|
            0 <= j < probes@.len() && on_disk@[j] && p@ == probes@[j]@ && (forall|k: int|
                0 <= k < j ==> !on_disk@[k]),
        r is None <==> (forall|j: int| 0 <= j < probes@.len() ==> !on_disk@[j]),
{
    let mut i: usize = 0;
    while i < probes.len()
        invariant
            i <= probes@.len(),
            on_disk@.len() == probes@.len(),
            forall|k: int| 0 <= k < i ==> !on_disk@[k],
        decreases probes@.len() - i,
    {
        if on_disk[i] {
            let p = probes[i].clone();
            proof {
                assert(0 <= i < probes@.len() && on_disk@[i as int] && p@ == probes@[i as int]@
                    && (forall|k: int| 0 <= k < i ==> !on_disk@[k]));
            }
            return Some(p);
        }
        i += 1;
    }
    None
}

fn contains_string(v: &Vec<String>, x: &String) -> (r: bool)
    ensures
        r == views(v@).contains(x@),
{
    let mut i: usize = 0;
    while i < v.len()
        invariant
            i <= v@.len(),
            forall|k: int| 0 <= k < i ==> views(v@)[k] != x@,
        decreases v@.len() - i,
    {
        if x.eq(&v[i]) {
            proof {
                assert(views(v@)[i as int] == x@);
            }
            return true;
        }
        i += 1;
    }
    false
}

/// Searches the candidate directories in order, probing the executable
/// directly in each and under its `bin` subdirectory, and returns the first
/// probe among the existing paths; `None` exactly when no probe exists.
pub fn locate_runtime(dirs: &Vec<String>, exe: &str, existing: &Vec<String>) -> (r: Option<String>)
    ensures
        ({
            let probes = probes_of(views(dirs@), exe@);
            let fs = views(existing@);
            &&& (r matches Some(p) ==> exists|j: int|
                0 <= j < probes.len() && fs.contains(probes[j]) && p@ == probes[j] && (forall|
                    k: int,
                |
                    0 <= k < j ==> !fs.contains(probes[k])))
            &&& (r is None <==> (forall|j: int| 0 <= j < probes.len() ==> !fs.contains(probes[j])))
        }),
{
    let probes = probe_paths(dirs, exe);
    let mut on_disk: Vec<bool> = Vec::new();
    let mut i: usize = 0;
    while i < probes.len()
        invariant
            i <= probes@.len(),
            on_disk@.len() == i,
            forall|k: int| 0 <= k < i ==> on_disk@[k] == views(existing@).contains(views(probes@)[k]),
        decreases probes@.len() - i,
    {
        let hit = contains_string(existing, &probes[i]);
        on_disk.push(hit);
        i += 1;
    }
    let res = first_match(&probes, &on_disk);
    proof {
        let probesv = probes_of(views(dirs@), exe@);
        let fs = views(existing@);
        assert(views(probes@) == probesv);
        if res is Some {
            let p = res->Some_0;
            let j = choose|j: int|
                0 <= j < probes@.len() && on_disk@[j] && p@ == probes@[j]@ && (forall|k: int|
                    0 <= k < j ==> !on_disk@[k]);
            assert(on_disk@[j] == fs.contains(views(probes@)[j]));
            assert(p@ == probesv[j]);
            assert forall|k: int| 0 <= k < j implies !fs.contains(probesv[k]) by {
                assert(probesv[k] == views(probes@)[k]);
                assert(!on_disk@[k]);
            }
            assert(exists|i: int|
                0 <= i < probesv.len() && fs.contains(probesv[i]) && p@ == probesv[i] && (forall|
                    k: int,
                |
                    0 <= k < i ==> !fs.contains(probesv[k])));
        } else {
            assert forall|k: int| 0 <= k < probesv.len() implies !fs.contains(probesv[k]) by {
                assert(probesv[k] == views(probes@)[k]);
                assert(!on_disk@[k]);
            }
        }
    }
    res
}

/// The runtime-selection rule: an explicitly configured path wins when it
/// exists; an explicit path that does not exist is fatal even when
/// auto-detection found a runtime; without an explicit path the auto-detected
/// runtime is used, and its absence is fatal.
pub open spec fn choose_runtime_spec(
    explicit: Option<Seq<char>>,
    explicit_exists: bool,
    detected: Option<Seq<char>>,
) -> Result<Seq<char>, LaunchError> {
    match explicit {
        Some(p) => if explicit_exists {
            Ok(p)
        } else {
            Err(LaunchError::JavaPathInvalid)
        },
        None => match detected {
            Some(d) => Ok(d),
            None => Err(LaunchError::JavaMissing),
        },
    }
}

/// Picks the runtime path according to `choose_runtime_spec`.
pub fn choose_runtime(explicit: Option<String>, explicit_exists: bool, detected: Option<String>) -> (r:
    Result<String, LaunchError>)
    ensures
        ({
            let e = match explicit {
                Some(s) => Some(s@),
                None => None,
            };
            let d = match detected {
                Some(s) => Some(s@),
                None => None,
            };
            let rv = match r {
                Ok(s) => Ok(s@),
                Err(err) => Err(err),
            };
            rv == choose_runtime_spec(e, explicit_exists, d)
        }),
{
    match explicit {
        Some(p) => {
            if explicit_exists {
                Ok(p)
            } else {
                Err(LaunchError::JavaPathInvalid)
            }
        },
        None => match detected {
            Some(d) => Ok(d),
            None => Err(LaunchError::JavaMissing),
        },
    }
}

/// An explicitly configured runtime path is preferred over any auto-detected
/// candidate — the choice does not depend on what detection found — and an
/// invalid explicit path is fatal no matter what detection found.
pub proof fn lemma_explicit_runtime_preferred(
    p: Seq<char>,
    d1: Option<Seq<char>>,
    d2: Option<Seq<char>>,
)
    ensures
        choose_runtime_spec(Some(p), true, d1) == Ok::<Seq<char>, LaunchError>(p),
        choose_runtime_spec(Some(p), true, d1) == choose_runtime_spec(Some(p), true, d2),
        choose_runtime_spec(Some(p), false, d1) == Err::<Seq<char>, LaunchError>(
            LaunchError::JavaPathInvalid,
        ),
        choose_runtime_spec(Some(p), false, d1) == choose_runtime_spec(Some(p), false, d2),
{
}

} // verus!

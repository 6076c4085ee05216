//! The object path resolver.
//!
//! The control plane names live objects by hierarchical paths, but
//! guarantees no predictable layout per device or session.  To find the
//! object that carries a device's media player or media transport, the
//! resolver first probes a short ordered list of empirically common
//! candidate paths — lower-indexed candidates are assumed more likely, so
//! probing stops at the first that answers — and only then falls back to a
//! full enumeration of the tree, taking the first object whose path contains
//! the device's path segment.  Finding nothing is not an error: it is the
//! normal "no active session" outcome.
//!
//! Probing itself is a bus round-trip, so a driver performs it; the
//! decisions — which paths, in which order, and which answer wins — live
//! here, proved.

use vstd::prelude::*;

use crate::addr::address_to_dbus_path;
use crate::addr::device_object_path;
use crate::addr::device_path_of;
use crate::addr::segment_of;
use crate::text::contains_seq;
use crate::text::contains_sub;
use crate::text::str_eq;
use crate::text::views_of;

verus! {

/// One object of a full-tree enumeration: its path and the names of the
/// capabilities it is annotated with.
#[derive(Debug)]
pub struct BusObject {
    pub path: String,
    pub interfaces: Vec<String>,
}

/// The object is annotated with the named capability.
pub open spec fn has_interface(o: BusObject, name: Seq<char>) -> bool {
    exists|i: int| 0 <= i < o.interfaces@.len() && o.interfaces@[i]@ == name
}

/// The ordered candidate paths for a device's media player.
pub fn player_candidate_paths(address: &str) -> (r: Vec<String>)
    ensures
        r@.len() == 2,
        r@[0]@ == device_path_of(address@) + "/player0"@,
        r@[1]@ == device_path_of(address@) + "/player1"@,
{
    let base = device_object_path(address);
    let mut r: Vec<String> = Vec::new();
    let mut p0 = base.clone();
    p0.append("/player0");
    r.push(p0);
    let mut p1 = base;
    p1.append("/player1");
    r.push(p1);
    r
}

/// The ordered candidate paths for a device's media transport.
pub fn transport_candidate_paths(address: &str) -> (r: Vec<String>)
    ensures
        r@.len() == 3,
        r@[0]@ == device_path_of(address@) + "/fd0"@,
        r@[1]@ == device_path_of(address@) + "/fd1"@,
        r@[2]@ == device_path_of(address@) + "/sep1/fd0"@,
{
    let base = device_object_path(address);
    let mut r: Vec<String> = Vec::new();
    let mut p0 = base.clone();
    p0.append("/fd0");
    r.push(p0);
    let mut p1 = base.clone();
    p1.append("/fd1");
    r.push(p1);
    let mut p2 = base;
    p2.append("/sep1/fd0");
    r.push(p2);
    r
}

/// Picks the first candidate whose capability probe answered.  `live[i]`
/// reports the probe of `candidates[i]`.
pub fn first_live_candidate(candidates: &Vec<String>, live: &Vec<bool>) -> (r: Option<String>)
    requires
        candidates@.len() == live@.len(),
    ensures
        match r {
            Some(p) => exists|i: int|
                #![auto]
                0 <= i < live@.len() && live@[i] && p@ == candidates@[i]@ && (forall|j: int|
                    0 <= j < i ==> !live@[j]),
            None => forall|i: int| 0 <= i < live@.len() ==> !live@[i],
        },
{
    let n = candidates.len();
    let mut i: usize = 0;
    while i < n
        invariant
            n == candidates@.len(),
            n == live@.len(),
            i <= n,
            forall|j: int| 0 <= j < i ==> !live@[j],
        decreases n - i,
    {
        if live[i] {
            return Some(candidates[i].clone());
        }
        i = i + 1;
    }
    None
}

/// The paths of the objects annotated with the named capability, in
/// enumeration order.
pub open spec fn annotated_paths(objects: Seq<BusObject>, name: Seq<char>) -> Seq<Seq<char>>
    decreases objects.len(),
{
    if objects.len() == 0 {
        Seq::empty()
    } else {
        let rest = annotated_paths(objects.drop_last(), name);
        if has_interface(objects.last(), name) {
            rest.push(objects.last().path@)
        } else {
            rest
        }
    }
}

/// Keeps, in order, the paths of the enumerated objects annotated with the
/// named capability.
pub fn paths_with_interface(objects: &Vec<BusObject>, name: &str) -> (r: Vec<String>)
    ensures
        views_of(r@) == annotated_paths(objects@, name@),
{
    let n = objects.len();
    let mut r: Vec<String> = Vec::new();
    let mut i: usize = 0;
    proof {
        assert(objects@.subrange(0, 0) =~= Seq::<BusObject>::empty());
        assert(views_of(r@) =~= annotated_paths(objects@.subrange(0, 0), name@));
    }
    while i < n
        invariant
            n == objects@.len(),
            i <= n,
            views_of(r@) == annotated_paths(objects@.subrange(0, i as int), name@),
        decreases n - i,
    {
        let o = &objects[i];
        let m = o.interfaces.len();
        let mut j: usize = 0;
        let mut hit = false;
        while j < m && !hit
            invariant
                m == o.interfaces@.len(),
                j <= m,
                hit ==> has_interface(*o, name@),
                !hit ==> forall|k: int| 0 <= k < j ==> o.interfaces@[k]@ != name@,
            decreases m - j + (if hit { 0int } else { 1int }),
        {
            if str_eq(o.interfaces[j].as_str(), name) {
                hit = true;
            } else {
                j = j + 1;
            }
        }
        let ghost r0 = r@;
        if hit {
            r.push(o.path.clone());
        }
        proof {
            let prefix = objects@.subrange(0, i + 1);
            assert(prefix.drop_last() =~= objects@.subrange(0, i as int));
            assert(prefix.last() == objects@[i as int]);
            if hit {
                assert(views_of(r@) =~= views_of(r0).push(objects@[i as int].path@));
            }
            assert(views_of(r@) =~= annotated_paths(prefix, name@));
        }
        i = i + 1;
    }
    proof {
        assert(objects@.subrange(0, n as int) =~= objects@);
    }
    r
}

/// Picks the first enumerated path that contains the device's path segment.
/// This is the fallback when no candidate probe answered; callers tolerate
/// false negatives if the path scheme changes, since the match is by
/// substring, not a parse.
pub fn first_matching_path(paths: &Vec<String>, address: &str) -> (r: Option<String>)
    ensures
        match r {
            Some(p) => exists|i: int|
                #![auto]
                0 <= i < paths@.len() && contains_seq(paths@[i]@, segment_of(address@)) && p@
                    == paths@[i]@ && (forall|j: int|
                    0 <= j < i ==> !contains_seq(paths@[j]@, segment_of(address@))),
            None => forall|i: int|
                0 <= i < paths@.len() ==> !contains_seq(paths@[i]@, segment_of(address@)),
        },
{
    let segment = address_to_dbus_path(address);
    let n = paths.len();
    let mut i: usize = 0;
    while i < n
        invariant
            segment@ == segment_of(address@),
            n == paths@.len(),
            i <= n,
            forall|j: int| 0 <= j < i ==> !contains_seq(paths@[j]@, segment_of(address@)),
        decreases n - i,
    {
        if contains_sub(paths[i].as_str(), segment.as_str()) {
            return Some(paths[i].clone());
        }
        i = i + 1;
    }
    None
}

/// The whole resolution decision, given the probe answers for the ordered
/// candidates and the full-tree enumeration: the first live candidate wins;
/// with no live candidate, the first enumerated path containing the device's
/// segment; with neither, no active session exists and the result is absent.
pub fn resolve_path(
    candidates: &Vec<String>,
    live: &Vec<bool>,
    enumerated: &Vec<String>,
    address: &str,
) -> (r: Option<String>)
    requires
        candidates@.len() == live@.len(),
    ensures
        (exists|i: int| 0 <= i < live@.len() && live@[i]) ==> match r {
            Some(p) => exists|i: int|
                #![auto]
                0 <= i < live@.len() && live@[i] && p@ == candidates@[i]@ && (forall|j: int|
                    0 <= j < i ==> !live@[j]),
            None => false,
        },
        (forall|i: int| 0 <= i < live@.len() ==> !live@[i]) ==> match r {
            Some(p) => exists|i: int|
                #![auto]
                0 <= i < enumerated@.len() && contains_seq(enumerated@[i]@, segment_of(address@))
                    && p@ == enumerated@[i]@ && (forall|j: int|
                    0 <= j < i ==> !contains_seq(enumerated@[j]@, segment_of(address@))),
            None => forall|i: int|
                0 <= i < enumerated@.len() ==> !contains_seq(
                    enumerated@[i]@,
                    segment_of(address@),
                ),
        },
{
    match first_live_candidate(candidates, live) {
        Some(p) => Some(p),
        None => first_matching_path(enumerated, address),
    }
}

/// With no responsive candidate but at least one enumerated object matching
/// the device's segment, resolution always yields a path — the fallback
/// never comes back empty-handed.
pub proof fn lemma_fallback_finds_match(
    live: Seq<bool>,
    enumerated: Seq<Seq<char>>,
    address: Seq<char>,
    r: Option<String>,
)
    requires
        forall|i: int| 0 <= i < live.len() ==> !live[i],
        exists|i: int| 0 <= i < enumerated.len() && contains_seq(#[trigger] enumerated[i], segment_of(address)),
        match r {
            Some(p) => exists|i: int|
                #![auto]
                0 <= i < enumerated.len() && contains_seq(enumerated[i], segment_of(address)) && p@
                    == enumerated[i] && (forall|j: int|
                    0 <= j < i ==> !contains_seq(enumerated[j], segment_of(address))),
            None => forall|i: int|
                0 <= i < enumerated.len() ==> !contains_seq(enumerated[i], segment_of(address)),
        },
    ensures
        r is Some,
        contains_seq(r->Some_0@, segment_of(address)),
        exists|i: int| 0 <= i < enumerated.len() && (#[trigger] enumerated[i]) == r->Some_0@,
{
    match r {
        Some(p) => {
            let i = choose|i: int|
                #![auto]
                0 <= i < enumerated.len() && contains_seq(enumerated[i], segment_of(address)) && p@
                    == enumerated[i];
            assert(enumerated[i] == p@);
        },
        None => {
            let w = choose|i: int|
                0 <= i < enumerated.len() && contains_seq(
                    #[trigger] enumerated[i],
                    segment_of(address),
                );
            assert(false);
        },
    }
}

} // verus!

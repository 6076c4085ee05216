//! The media session controller's arithmetic and data handling.
//!
//! Volume crosses the boundary twice: the public surface speaks percentages
//! in `[0, 100]`, the transport's native scale is `[0, 127]`.  Both
//! conversions truncate toward zero, and the downward ratio sits strictly
//! below `100/127`, so a transport at full scale reads back as `99`: the
//! round trip of `100` is `100 -> 127 -> 99`, a documented lossy boundary,
//! not a bug.
//!
//! Track metadata arrives as a loosely-typed property bag.  Each field is
//! extracted independently and defaults to absent on a missing key or a type
//! mismatch, so one malformed value never suppresses the others.

use vstd::prelude::*;
use vstd::arithmetic::div_mod::lemma_fundamental_div_mod;

use crate::device::MediaPlayerInfo;
use crate::errors::BtError;
use crate::text::contains_seq;

verus! {

/// The native transport value of a public volume percentage, truncating
/// toward zero.
pub open spec fn native_of_percent(p: int) -> int {
    p * 127 / 100
}

/// The public percentage of a native transport value, truncating toward
/// zero.  The ratio sits strictly below `100/127`, so full scale (and any
/// value beyond it) reads as `99`, never `100`.
pub open spec fn percent_of_native(v: int) -> int {
    if v >= 127 {
        99
    } else {
        v * 100 / 127
    }
}

/// Converts a public volume percentage to the transport's native scale.
pub fn percent_to_native(percent: u8) -> (v: u16)
    ensures
        v as int == native_of_percent(percent as int),
{
    (percent as u16) * 127 / 100
}

/// Converts a native transport volume to the public percentage scale.
pub fn native_to_percent(native: u16) -> (p: u8)
    ensures
        p as int == percent_of_native(native as int),
{
    if native >= 127 {
        99
    } else {
        let q = (native as u32) * 100 / 127;
        proof {
            assert(q <= 99) by (nonlinear_arith)
                requires
                    q == (native as u32) * 100 / 127,
                    native < 127,
            ;
        }
        q as u8
    }
}

/// The volume round trip loses at most one percentage point: converting a
/// percentage to the native scale and back yields the percentage itself or
/// its predecessor — and exactly `99` at the upper boundary `100`.
pub proof fn lemma_volume_round_trip(p: int)
    requires
        0 <= p <= 100,
    ensures
        p < 100 ==> p - 1 <= percent_of_native(native_of_percent(p)) <= p,
        p == 100 ==> percent_of_native(native_of_percent(p)) == 99,
{
    let q = native_of_percent(p);
    lemma_fundamental_div_mod(p * 127, 100);
    let r = (p * 127) % 100;
    assert(p * 127 == 100 * q + r);
    if p == 100 {
        assert(q == 127);
    } else {
        assert(p * 127 <= 99 * 127) by (nonlinear_arith)
            requires
                p <= 99,
        ;
        assert(q < 127);
        let t = percent_of_native(q);
        lemma_fundamental_div_mod(q * 100, 127);
        let s = (q * 100) % 127;
        assert(q * 100 == 127 * t + s);
        // 127*p == 100*q + r gives 127*(p - t) == r + s, so r + s is 0 or 127.
        assert(127 * p == 127 * t + r + s);
        assert(127 * (p - t) == r + s) by (nonlinear_arith)
            requires
                127 * p == 127 * t + r + s,
        ;
        assert(0 <= r + s < 227);
        assert(p - t == 0 || p - t == 1) by (nonlinear_arith)
            requires
                127 * (p - t) == r + s,
                0 <= r + s < 227,
        ;
    }
}

/// One value of the loosely-typed property bag: a string, one of the two
/// unsigned widths the control plane uses, or anything else (ignored).
#[derive(Clone, Debug, PartialEq, Eq)]
pub enum PropValue {
    Text(String),
    Uint32(u32),
    Uint64(u64),
    Other,
}

/// One keyed entry of a property bag.
#[derive(Clone, Debug, PartialEq, Eq)]
pub struct PropEntry {
    pub key: String,
    pub value: PropValue,
}

/// The first value stored under `key`, if any.
pub open spec fn lookup(bag: Seq<PropEntry>, key: Seq<char>) -> Option<PropValue>
    decreases bag.len(),
{
    if bag.len() == 0 {
        None
    } else if bag[0].key@ == key {
        Some(bag[0].value)
    } else {
        lookup(bag.drop_first(), key)
    }
}

/// The string stored under `key`, absent on a missing key or a non-string
/// value.
pub open spec fn text_of(bag: Seq<PropEntry>, key: Seq<char>) -> Option<String> {
    match lookup(bag, key) {
        Some(PropValue::Text(s)) => Some(s),
        _ => None,
    }
}

/// The unsigned number stored under `key`, at either width, absent on a
/// missing key or a non-numeric value.
pub open spec fn number_of(bag: Seq<PropEntry>, key: Seq<char>) -> Option<u64> {
    match lookup(bag, key) {
        Some(PropValue::Uint32(n)) => Some(n as u64),
        Some(PropValue::Uint64(n)) => Some(n),
        _ => None,
    }
}

/// Extracts the string stored under `key`.
pub fn extract_text(bag: &Vec<PropEntry>, key: &str) -> (r: Option<String>)
    ensures
        r == text_of(bag@, key@),
{
    let n = bag.len();
    let mut i: usize = 0;
    proof {
        assert(bag@.skip(0) =~= bag@);
    }
    while i < n
        invariant
            n == bag@.len(),
            i <= n,
            lookup(bag@, key@) == lookup(bag@.skip(i as int), key@),
        decreases n - i,
    {
        proof {
            assert(bag@.skip(i as int)[0] == bag@[i as int]);
            assert(bag@.skip(i as int).drop_first() =~= bag@.skip(i + 1));
        }
        if crate::text::str_eq(bag[i].key.as_str(), key) {
            match &bag[i].value {
                PropValue::Text(s) => {
                    return Some(s.clone());
                },
                _ => {
                    return None;
                },
            }
        }
        i = i + 1;
    }
    proof {
        assert(bag@.skip(n as int) =~= Seq::<PropEntry>::empty());
    }
    None
}

/// Extracts the unsigned number stored under `key`, trying the narrow width
/// first, as the control plane most often reports durations.
pub fn extract_number(bag: &Vec<PropEntry>, key: &str) -> (r: Option<u64>)
    ensures
        r == number_of(bag@, key@),
{
    let n = bag.len();
    let mut i: usize = 0;
    proof {
        assert(bag@.skip(0) =~= bag@);
    }
    while i < n
        invariant
            n == bag@.len(),
            i <= n,
            lookup(bag@, key@) == lookup(bag@.skip(i as int), key@),
        decreases n - i,
    {
        proof {
            assert(bag@.skip(i as int)[0] == bag@[i as int]);
            assert(bag@.skip(i as int).drop_first() =~= bag@.skip(i + 1));
        }
        if crate::text::str_eq(bag[i].key.as_str(), key) {
            match &bag[i].value {
                PropValue::Uint32(v) => {
                    return Some(*v as u64);
                },
                PropValue::Uint64(v) => {
                    return Some(*v);
                },
                _ => {
                    return None;
                },
            }
        }
        i = i + 1;
    }
    proof {
        assert(bag@.skip(n as int) =~= Seq::<PropEntry>::empty());
    }
    None
}

/// Assembles a media-session snapshot from the independently read parts: a
/// missing status reads as `"unknown"`, the position widens to the public
/// width, and each track field comes out of the property bag on its own, so
/// one malformed field cannot suppress the others.
pub fn media_info_from_parts(
    status: Option<String>,
    position: Option<u32>,
    track: &Vec<PropEntry>,
) -> (r: MediaPlayerInfo)
    ensures
        r.name@ == "Bluetooth"@,
        match status {
            Some(s) => r.status == s,
            None => r.status@ == "unknown"@,
        },
        r.position == match position {
            Some(p) => Some(p as u64),
            None => None::<u64>,
        },
        r.track == text_of(track@, "Title"@),
        r.artist == text_of(track@, "Artist"@),
        r.album == text_of(track@, "Album"@),
        r.duration == number_of(track@, "Duration"@),
{
    MediaPlayerInfo {
        name: String::from_str("Bluetooth"),
        position: match position {
            Some(p) => Some(p as u64),
            None => None,
        },
        duration: extract_number(track, "Duration"),
        status: match status {
            Some(s) => s,
            None => String::from_str("unknown"),
        },
        track: extract_text(track, "Title"),
        artist: extract_text(track, "Artist"),
        album: extract_text(track, "Album"),
    }
}

/// The outcome of a transport-level command, once resolution has answered
/// and the driver has (at most) issued the call: with no resolved path there
/// is no active session, and the command is a documented no-op that succeeds;
/// with a resolved path the call's own failure surfaces, as a call error.
pub fn media_command_outcome(resolved: bool, call_succeeded: bool) -> (r: Result<(), BtError>)
    ensures
        !resolved ==> r == Result::<(), BtError>::Ok(()),
        resolved && call_succeeded ==> r == Result::<(), BtError>::Ok(()),
        resolved && !call_succeeded ==> r == Result::<(), BtError>::Err(
            BtError::ExternalCallFailure,
        ),
{
    if resolved && !call_succeeded {
        Err(BtError::ExternalCallFailure)
    } else {
        Ok(())
    }
}

/// The public answer to a volume query: the transport's native reading
/// converted to the percentage scale, or absent when no transport carries
/// the session.
pub fn volume_percent_answer(native: Option<u16>) -> (r: Option<u8>)
    ensures
        match native {
            Some(v) => r is Some && r->Some_0 as int == percent_of_native(v as int),
            None => r is None,
        },
{
    match native {
        Some(v) => Some(native_to_percent(v)),
        None => None,
    }
}

/// Does a service identifier advertise one of the three audio profiles the
/// controller cares about?  The match is by substring against the string
/// form — identifier formatting varies by backend version, so no structured
/// parse.
pub open spec fn is_audio_profile(u: Seq<char>) -> bool {
    contains_seq(u, "110b"@)  // audio sink
    || contains_seq(u, "110e"@)  // remote-control target
    || contains_seq(u, "110f"@)  // advanced audio
}

/// Keeps exactly the advertised identifiers that match an audio profile, in
/// order.
pub fn filter_audio_sinks(uuids: &Vec<String>) -> (r: Vec<String>)
    ensures
        r@ == uuids@.filter(|u: String| is_audio_profile(u@)),
{
    let ghost pred = |u: String| is_audio_profile(u@);
    let n = uuids.len();
    let mut r: Vec<String> = Vec::new();
    let mut i: usize = 0;
    while i < n
        invariant
            pred == (|u: String| is_audio_profile(u@)),
            n == uuids@.len(),
            i <= n,
            r@ == uuids@.subrange(0, i as int).filter(pred),
        decreases n - i,
    {
        let u = &uuids[i];
        let hit = crate::text::contains_sub(u.as_str(), "110b") || crate::text::contains_sub(
            u.as_str(),
            "110e",
        ) || crate::text::contains_sub(u.as_str(), "110f");
        if hit {
            r.push(u.clone());
        }
        proof {
            reveal_with_fuel(Seq::filter, 2);
            let prefix = uuids@.subrange(0, i + 1);
            assert(prefix.drop_last() =~= uuids@.subrange(0, i as int));
            assert(prefix.last() == uuids@[i as int]);
            assert(pred(prefix.last()) == hit);
            assert(prefix.filter(pred) == (if pred(prefix.last()) {
                prefix.drop_last().filter(pred).push(prefix.last())
            } else {
                prefix.drop_last().filter(pred)
            }));
            assert(r@ == prefix.filter(pred));
        }
        i = i + 1;
    }
    proof {
        assert(uuids@.subrange(0, n as int) =~= uuids@);
    }
    r
}

} // verus!

//! The address codec.
//!
//! A device address in its external, human-readable form
//! (`"AA:BB:CC:DD:EE:FF"`) is turned into the control plane's object-path
//! segment form by replacing every colon with an underscore, bit-exact and
//! case-preserving, and that segment is embedded into the well-known device
//! path template.  The reverse direction is never parsed: enumeration results
//! are filtered by substring containment of the segment.

use vstd::prelude::*;

verus! {

/// The path-segment form of an address: every colon replaced by an
/// underscore, everything else kept as it is.  Pure and total on any string.
pub open spec fn segment_of(addr: Seq<char>) -> Seq<char> {
    Seq::new(addr.len(), |i: int| if addr[i] == ':' { '_' } else { addr[i] })
}

/// The well-known object path of the device with the given address.
pub open spec fn device_path_of(addr: Seq<char>) -> Seq<char> {
    "/org/bluez/hci0/dev_"@ + segment_of(addr)
}

/// Is `c` an ASCII hexadecimal digit?
pub open spec fn is_hex_digit(c: char) -> bool {
    (48 <= c as u32 && c as u32 <= 57)  // '0' ..= '9'
    || (97 <= c as u32 && c as u32 <= 102)  // 'a' ..= 'f'
    || (65 <= c as u32 && c as u32 <= 70)  // 'A' ..= 'F'
}

/// A well-formed external address: six groups of two hexadecimal digits,
/// delimited by colons, seventeen characters in all.
pub open spec fn valid_address(s: Seq<char>) -> bool {
    &&& s.len() == 17
    &&& forall|i: int|
        0 <= i < 17 ==> (if i % 3 == 2 {
            s[i] == ':'
        } else {
            is_hex_digit(s[i])
        })
}

/// Converts an address to its object-path segment form.
pub fn address_to_dbus_path(address: &str) -> (r: String)
    ensures
        r@ == segment_of(address@),
{
    let n = address.unicode_len();
    let mut r = String::new();
    let mut i: usize = 0;
    while i < n
        invariant
            n == address@.len(),
            i <= n,
            r@ == segment_of(address@).subrange(0, i as int),
        decreases n - i,
    {
        let c = address.get_char(i);
        if c == ':' {
            r.append("_");
            proof {
                reveal_strlit("_");
            }
        } else {
            let piece = address.substring_char(i, i + 1);
            r.append(piece);
        }
        proof {
            assert(r@ =~= segment_of(address@).subrange(0, i + 1));
        }
        i = i + 1;
    }
    proof {
        assert(segment_of(address@).subrange(0, n as int) =~= segment_of(address@));
    }
    r
}

/// Builds the well-known object path of the device with the given address.
pub fn device_object_path(address: &str) -> (r: String)
    ensures
        r@ == device_path_of(address@),
{
    let mut r = String::from_str("/org/bluez/hci0/dev_");
    let seg = address_to_dbus_path(address);
    r.append(seg.as_str());
    r
}

/// Builds the well-known object path of an adapter from its identifier.
pub fn adapter_object_path(id: &str) -> (r: String)
    ensures
        r@ == "/org/bluez/"@ + id@,
{
    let mut r = String::from_str("/org/bluez/");
    r.append(id);
    r
}

/// Builds the object path of a device under the given adapter path.
pub fn device_path_under(adapter_path: &str, address: &str) -> (r: String)
    ensures
        r@ == adapter_path@ + "/dev_"@ + segment_of(address@),
{
    let mut r = String::from_str(adapter_path);
    r.append("/dev_");
    let seg = address_to_dbus_path(address);
    r.append(seg.as_str());
    r
}

/// Checks whether a string is a well-formed external address.
pub fn is_valid_address(address: &str) -> (r: bool)
    ensures
        r == valid_address(address@),
{
    let n = address.unicode_len();
    if n != 17 {
        return false;
    }
    let mut i: usize = 0;
    while i < 17
        invariant
            address@.len() == 17,
            i <= 17,
            forall|k: int|
                0 <= k < i ==> (if k % 3 == 2 {
                    address@[k] == ':'
                } else {
                    is_hex_digit(address@[k])
                }),
        decreases 17 - i,
    {
        let c = address.get_char(i);
        let v = c as u32;
        if i % 3 == 2 {
            if c != ':' {
                return false;
            }
        } else {
            if !((48 <= v && v <= 57) || (97 <= v && v <= 102) || (65 <= v && v <= 70)) {
                return false;
            }
        }
        i = i + 1;
    }
    true
}

} // verus!

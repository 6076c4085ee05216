//! The device registry: the authoritative in-process cache of known devices.
//!
//! The cache always reflects the last successful refresh.  A refresh is a
//! full replace, never a merge, so no stale entry survives for a device that
//! disappeared; a failed refresh leaves the previous snapshot intact.  The
//! one point mutation is the removal that `unpair` performs directly, so that
//! the entry is gone even if the follow-up refresh is delayed or fails.

use vstd::prelude::*;

use crate::device::BluetoothDevice;
use crate::device::copy_device;
use crate::text::str_eq;

verus! {

/// No two records share an address.
pub open spec fn unique_addresses(s: Seq<BluetoothDevice>) -> bool {
    forall|i: int, j: int| 0 <= i < j < s.len() ==> s[i].address@ != s[j].address@
}

/// Some record carries the given address.
pub open spec fn has_address(s: Seq<BluetoothDevice>, addr: Seq<char>) -> bool {
    exists|i: int| 0 <= i < s.len() && s[i].address@ == addr
}

/// The address-to-record cache.  The view is the sequence of records; the
/// well-formedness invariant keeps addresses unique.
pub struct DeviceRegistry {
    records: Vec<BluetoothDevice>,
}

impl View for DeviceRegistry {
    type V = Seq<BluetoothDevice>;

    closed spec fn view(&self) -> Seq<BluetoothDevice> {
        self.records@
    }
}

impl DeviceRegistry {
    /// Addresses in the cache are unique: established by the constructor and
    /// preserved by every operation.
    pub open spec fn wf(&self) -> bool {
        unique_addresses(self@)
    }

    /// An empty cache.
    pub fn new() -> (r: DeviceRegistry)
        ensures
            r@ == Seq::<BluetoothDevice>::empty(),
            r.wf(),
    {
        DeviceRegistry { records: Vec::new() }
    }

    /// How many devices are cached.
    pub fn len(&self) -> (n: usize)
        ensures
            n == self@.len(),
    {
        self.records.len()
    }

    /// Checks that a snapshot's addresses are unique, so that it can serve
    /// as a cache state.
    pub fn snapshot_admissible(snapshot: &Vec<BluetoothDevice>) -> (r: bool)
        ensures
            r == unique_addresses(snapshot@),
    {
        let n = snapshot.len();
        let mut i: usize = 0;
        while i < n
            invariant
                n == snapshot@.len(),
                i <= n,
                forall|p: int, q: int| 0 <= p < q < i ==> snapshot@[p].address@ != snapshot@[q].address@,
            decreases n - i,
        {
            let mut j: usize = 0;
            while j < i
                invariant
                    n == snapshot@.len(),
                    i < n,
                    j <= i,
                    forall|q: int| 0 <= q < j ==> snapshot@[q].address@ != snapshot@[i as int].address@,
                decreases i - j,
            {
                if str_eq(snapshot[j].address.as_str(), snapshot[i].address.as_str()) {
                    return false;
                }
                j = j + 1;
            }
            i = i + 1;
        }
        true
    }

    /// Replaces the whole cache with a fresh snapshot, atomically: either the
    /// snapshot is admissible and becomes the cache in one step, or the
    /// previous contents stay untouched.  No intermediate state exists.
    pub fn replace_all(&mut self, snapshot: Vec<BluetoothDevice>) -> (ok: bool)
        requires
            old(self).wf(),
        ensures
            final(self).wf(),
            ok == unique_addresses(snapshot@),
            ok ==> final(self)@ == snapshot@,
            !ok ==> final(self)@ == old(self)@,
    {
        if DeviceRegistry::snapshot_admissible(&snapshot) {
            self.records = snapshot;
            true
        } else {
            false
        }
    }

    /// Removes the record with the given address, if present; every other
    /// record stays, in order.
    pub fn remove_address(&mut self, address: &str) -> (removed: bool)
        requires
            old(self).wf(),
        ensures
            final(self).wf(),
            removed == has_address(old(self)@, address@),
            !has_address(final(self)@, address@),
            removed ==> exists|i: int|
                0 <= i < old(self)@.len() && old(self)@[i].address@ == address@ && final(self)@
                    == old(self)@.remove(i),
            !removed ==> final(self)@ == old(self)@,
    {
        let n = self.records.len();
        let mut i: usize = 0;
        while i < n
            invariant
                old(self).wf(),
                *self == *old(self),
                n == self.records@.len(),
                i <= n,
                forall|k: int| 0 <= k < i ==> self.records@[k].address@ != address@,
            decreases n - i,
        {
            if str_eq(self.records[i].address.as_str(), address) {
                let ghost pre = self.records@;
                self.records.remove(i);
                proof {
                    assert(self.records@ == pre.remove(i as int));
                    assert forall|k: int| 0 <= k < self.records@.len() implies self.records@[k].address@
                        != address@ by {
                        if k < i {
                            assert(self.records@[k] == pre[k]);
                        } else {
                            assert(self.records@[k] == pre[k + 1]);
                        }
                    }
                    assert(unique_addresses(self.records@)) by {
                        assert forall|p: int, q: int|
                            0 <= p < q < self.records@.len() implies self.records@[p].address@
                            != self.records@[q].address@ by {
                            let pp = if p < i { p } else { p + 1 };
                            let qq = if q < i { q } else { q + 1 };
                            assert(self.records@[p] == pre[pp]);
                            assert(self.records@[q] == pre[qq]);
                        }
                    }
                }
                return true;
            }
            i = i + 1;
        }
        proof {
            assert(!has_address(self@, address@));
        }
        false
    }

    /// Hands out a copy of every cached record, in cache order.
    pub fn all_devices(&self) -> (r: Vec<BluetoothDevice>)
        ensures
            r@ == self@,
    {
        let n = self.records.len();
        let mut r: Vec<BluetoothDevice> = Vec::new();
        let mut i: usize = 0;
        while i < n
            invariant
                n == self.records@.len(),
                i <= n,
                r@ == self.records@.subrange(0, i as int),
            decreases n - i,
        {
            r.push(copy_device(&self.records[i]));
            proof {
                assert(r@ =~= self.records@.subrange(0, i + 1));
            }
            i = i + 1;
        }
        proof {
            assert(self.records@.subrange(0, n as int) =~= self.records@);
        }
        r
    }

    /// Is a record with this address cached?
    pub fn contains_address(&self, address: &str) -> (r: bool)
        ensures
            r == has_address(self@, address@),
    {
        let n = self.records.len();
        let mut i: usize = 0;
        while i < n
            invariant
                n == self.records@.len(),
                i <= n,
                forall|k: int| 0 <= k < i ==> self.records@[k].address@ != address@,
            decreases n - i,
        {
            if str_eq(self.records[i].address.as_str(), address) {
                return true;
            }
            i = i + 1;
        }
        false
    }
}

} // verus!

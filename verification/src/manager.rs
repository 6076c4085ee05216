//! The adapter session and command facade.
//!
//! One manager owns the registry for the lifetime of the adapter session.
//! It starts uninitialized; initialization is driven from outside (the
//! adapter and bus calls suspend, so a driver performs them) and reports its
//! outcome here.  Until it succeeds, read-like queries answer with their
//! default value and mutating operations fail with `NotInitialized`; a failed
//! initialization leaves the session uninitialized, there is no failed
//! terminal state.

use vstd::prelude::*;

use crate::addr::valid_address;
use crate::addr::is_valid_address;
use crate::device::BluetoothDevice;
use crate::device::BluetoothStatus;
use crate::errors::BtError;
use crate::media::filter_audio_sinks;
use crate::media::is_audio_profile;
use crate::registry::DeviceRegistry;
use crate::registry::has_address;
use crate::registry::unique_addresses;

verus! {

/// The mathematical value of a manager: whether the session is up, and the
/// cached records.
#[verifier::ext_equal]
pub struct ManagerModel {
    pub initialized: bool,
    pub devices: Seq<BluetoothDevice>,
}

/// The session state and device cache behind the command surface.
pub struct BluetoothManager {
    initialized: bool,
    registry: DeviceRegistry,
}

impl View for BluetoothManager {
    type V = ManagerModel;

    closed spec fn view(&self) -> ManagerModel {
        ManagerModel { initialized: self.initialized, devices: self.registry@ }
    }
}

impl BluetoothManager {
    /// Cached addresses stay unique.
    pub open spec fn wf(&self) -> bool {
        unique_addresses(self@.devices)
    }

    /// A fresh manager: uninitialized, empty cache.
    pub fn new() -> (r: BluetoothManager)
        ensures
            !r@.initialized,
            r@.devices == Seq::<BluetoothDevice>::empty(),
            r.wf(),
    {
        BluetoothManager { initialized: false, registry: DeviceRegistry::new() }
    }

    /// Has initialization succeeded?
    pub fn is_initialized(&self) -> (r: bool)
        ensures
            r == self@.initialized,
    {
        self.initialized
    }

    /// Records that the initialization sequence ran to completion, with the
    /// registry refresh it ends in.  An inadmissible snapshot (a duplicated
    /// address) fails the initialization instead: the session is then
    /// uninitialized, and the cache keeps its previous contents.
    pub fn complete_initialization(&mut self, snapshot: Vec<BluetoothDevice>) -> (r: Result<
        (),
        BtError,
    >)
        requires
            old(self).wf(),
        ensures
            final(self).wf(),
            unique_addresses(snapshot@) ==> r == Result::<(), BtError>::Ok(()) && final(self)@ == (ManagerModel { initialized: true, devices: snapshot@ }),
            !unique_addresses(snapshot@) ==> r == Result::<(), BtError>::Err(
                BtError::ExternalCallFailure,
            ) && final(self)@ == (ManagerModel { initialized: false, devices: old(self)@.devices }),
    {
        if self.registry.replace_all(snapshot) {
            self.initialized = true;
            Ok(())
        } else {
            self.initialized = false;
            Err(BtError::ExternalCallFailure)
        }
    }

    /// Records that an initialization step failed: the session stays (or
    /// becomes again) uninitialized, and the cache is untouched.
    pub fn abort_initialization(&mut self)
        requires
            old(self).wf(),
        ensures
            final(self).wf(),
            final(self)@ == (ManagerModel { initialized: false, devices: old(self)@.devices }),
    {
        self.initialized = false;
    }

    /// The admission test that every per-address mutating command runs
    /// first: the session must be up and the address well formed.
    pub fn device_command_gate(&self, address: &str) -> (r: Result<(), BtError>)
        ensures
            !self@.initialized ==> r == Result::<(), BtError>::Err(BtError::NotInitialized),
            self@.initialized && !valid_address(address@) ==> r == Result::<(), BtError>::Err(
                BtError::ResolutionFailure,
            ),
            self@.initialized && valid_address(address@) ==> r == Result::<(), BtError>::Ok(()),
    {
        if !self.initialized {
            Err(BtError::NotInitialized)
        } else if !is_valid_address(address) {
            Err(BtError::ResolutionFailure)
        } else {
            Ok(())
        }
    }

    /// Installs the outcome of a refresh: `Some` snapshot replaces the whole
    /// cache in one step, `None` (the enumeration failed) leaves the previous
    /// snapshot intact.  Nothing is replaced before the session is up.
    pub fn apply_refresh(&mut self, outcome: Option<Vec<BluetoothDevice>>) -> (r: Result<
        (),
        BtError,
    >)
        requires
            old(self).wf(),
        ensures
            final(self).wf(),
            final(self)@.initialized == old(self)@.initialized,
            !old(self)@.initialized ==> r == Result::<(), BtError>::Err(BtError::NotInitialized)
                && final(self)@.devices == old(self)@.devices,
            old(self)@.initialized ==> match outcome {
                Some(snapshot) => {
                    if unique_addresses(snapshot@) {
                        r == Result::<(), BtError>::Ok(()) && final(self)@.devices == snapshot@
                    } else {
                        r == Result::<(), BtError>::Err(BtError::ExternalCallFailure) && final(self)@.devices == old(self)@.devices
                    }
                },
                None => r == Result::<(), BtError>::Err(BtError::ExternalCallFailure) && final(self)@.devices == old(self)@.devices,
            },
    {
        if !self.initialized {
            return Err(BtError::NotInitialized);
        }
        match outcome {
            Some(snapshot) => {
                if self.registry.replace_all(snapshot) {
                    Ok(())
                } else {
                    Err(BtError::ExternalCallFailure)
                }
            },
            None => Err(BtError::ExternalCallFailure),
        }
    }

    /// Removes the unpaired device from the cache at once, without waiting
    /// for a refresh to observe the removal: even if the follow-up refresh is
    /// delayed or fails, the entry does not reappear.
    pub fn record_unpair(&mut self, address: &str) -> (r: Result<(), BtError>)
        requires
            old(self).wf(),
        ensures
            final(self).wf(),
            final(self)@.initialized == old(self)@.initialized,
            !old(self)@.initialized ==> r == Result::<(), BtError>::Err(BtError::NotInitialized)
                && final(self)@.devices == old(self)@.devices,
            old(self)@.initialized ==> r == Result::<(), BtError>::Ok(()) && !has_address(
                final(self)@.devices,
                address@,
            ) && (if has_address(old(self)@.devices, address@) {
                exists|i: int|
                    0 <= i < old(self)@.devices.len() && old(self)@.devices[i].address@ == address@
                        && final(self)@.devices == old(self)@.devices.remove(i)
            } else {
                final(self)@.devices == old(self)@.devices
            }),
    {
        if !self.initialized {
            return Err(BtError::NotInitialized);
        }
        self.registry.remove_address(address);
        Ok(())
    }

    /// Hands out the cached records.  Before initialization the cache is
    /// empty, so this reads as the empty list then.
    pub fn get_devices(&self) -> (r: Vec<BluetoothDevice>)
        ensures
            r@ == self@.devices,
    {
        self.registry.all_devices()
    }

    /// Assembles the status answer from the adapter's live flags and the
    /// cache.  The flags are never cached — staleness there would be
    /// security-relevant; a flag whose read failed, like the whole of them
    /// while no session is up, reads as `false`.
    pub fn build_status(
        &self,
        powered: Option<bool>,
        discoverable: Option<bool>,
        pairable: Option<bool>,
    ) -> (r: BluetoothStatus)
        ensures
            r.adapter_powered == (self@.initialized && powered == Some(true)),
            r.discoverable == (self@.initialized && discoverable == Some(true)),
            r.pairable == (self@.initialized && pairable == Some(true)),
            r.devices@ == self@.devices,
    {
        BluetoothStatus {
            adapter_powered: self.initialized && powered == Some(true),
            discoverable: self.initialized && discoverable == Some(true),
            pairable: self.initialized && pairable == Some(true),
            devices: self.registry.all_devices(),
        }
    }

    /// The audio-profile identifiers a device advertises, filtered from the
    /// fetched service list.  Queries are read-like: before initialization
    /// the answer is empty rather than an error, and a device that reported
    /// no list at all reads as empty too.
    pub fn audio_sinks_from(&self, uuids: Option<Vec<String>>) -> (r: Vec<String>)
        ensures
            !self@.initialized ==> r@ == Seq::<String>::empty(),
            self@.initialized ==> match uuids {
                Some(u) => r@ == u@.filter(|u: String| is_audio_profile(u@)),
                None => r@ == Seq::<String>::empty(),
            },
    {
        if !self.initialized {
            Vec::new()
        } else {
            match uuids {
                Some(u) => filter_audio_sinks(&u),
                None => Vec::new(),
            }
        }
    }

    /// Is a record with this address cached?
    pub fn knows_address(&self, address: &str) -> (r: bool)
        ensures
            r == has_address(self@.devices, address@),
    {
        self.registry.contains_address(address)
    }
}

/// Refresh is atomic.  Its contract allows exactly two outcomes — the whole
/// previous device list, or the whole new snapshot — so an observer sees the
/// pre-refresh count or the post-refresh count and never a torn intermediate
/// state.  (Concurrent observers are serialized by the embedding's lock
/// around the manager; every state that lock hands out satisfies the
/// premise.)
pub proof fn lemma_refresh_atomic(
    pre: ManagerModel,
    post: ManagerModel,
    snapshot: Seq<BluetoothDevice>,
)
    requires
        post.devices == pre.devices || post.devices == snapshot,
    ensures
        post.devices.len() == pre.devices.len() || post.devices.len() == snapshot.len(),
{
}

/// An unpaired address stays gone: once the unpair removed it from the
/// cache, a refresh that fails — and therefore leaves the device list
/// untouched — cannot make the entry reappear.
pub proof fn lemma_unpair_survives_failed_refresh(
    unpaired: ManagerModel,
    after_refresh: ManagerModel,
    address: Seq<char>,
)
    requires
        !has_address(unpaired.devices, address),
        after_refresh.devices == unpaired.devices,
    ensures
        !has_address(after_refresh.devices, address),
{
}

} // verus!

//! The data model: device records, adapter status and media-session
//! snapshots, with their mathematical views.

use vstd::prelude::*;

verus! {

/// One known device, as cached by the registry.  Identity is the address,
/// in its external form (`"AA:BB:CC:DD:EE:FF"`).
#[derive(Clone, Debug, PartialEq, Eq)]
pub struct BluetoothDevice {
    pub address: String,
    pub name: Option<String>,
    pub class: Option<u32>,
    pub paired: bool,
    pub connected: bool,
    pub trusted: bool,
}

/// The adapter's live flags beside the cached device list.
#[derive(Debug)]
pub struct BluetoothStatus {
    pub adapter_powered: bool,
    pub discoverable: bool,
    pub pairable: bool,
    pub devices: Vec<BluetoothDevice>,
}

/// One media session, reconstructed fresh on every query; the external
/// object backing it can disappear between queries, so nothing is cached.
#[derive(Clone, Debug, PartialEq, Eq)]
pub struct MediaPlayerInfo {
    pub name: String,
    pub position: Option<u64>,
    pub duration: Option<u64>,
    pub status: String,
    pub track: Option<String>,
    pub artist: Option<String>,
    pub album: Option<String>,
}

/// Builds a device record from independently read fields.  A read failure on
/// one field arrives as `None` and defaults that field to its safe value —
/// name and class to absent, the flags to `false` — rather than aborting the
/// device.
pub fn record_from_fields(
    address: String,
    name: Option<String>,
    class: Option<u32>,
    paired: Option<bool>,
    connected: Option<bool>,
    trusted: Option<bool>,
) -> (d: BluetoothDevice)
    ensures
        d.address == address,
        d.name == name,
        d.class == class,
        d.paired == (paired == Some(true)),
        d.connected == (connected == Some(true)),
        d.trusted == (trusted == Some(true)),
{
    BluetoothDevice {
        address,
        name,
        class,
        paired: match paired {
            Some(b) => b,
            None => false,
        },
        connected: match connected {
            Some(b) => b,
            None => false,
        },
        trusted: match trusted {
            Some(b) => b,
            None => false,
        },
    }
}

/// An exact copy of a device record.  (The derived `Clone` carries no
/// contract, so the registry copies records through this function.)
pub fn copy_device(d: &BluetoothDevice) -> (r: BluetoothDevice)
    ensures
        r == *d,
{
    BluetoothDevice {
        address: d.address.clone(),
        name: match &d.name {
            Some(s) => Some(s.clone()),
            None => None,
        },
        class: d.class,
        paired: d.paired,
        connected: d.connected,
        trusted: d.trusted,
    }
}

} // verus!

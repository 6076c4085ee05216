use bluecore::device::record_from_fields;
use bluecore::device::BluetoothDevice;
use bluecore::errors::BtError;
use bluecore::manager::BluetoothManager;
use bluecore::registry::DeviceRegistry;

fn device(address: &str, paired: bool, connected: bool) -> BluetoothDevice {
    BluetoothDevice {
        address: address.to_string(),
        name: None,
        class: None,
        paired,
        connected,
        trusted: false,
    }
}

#[test]
fn end_to_end_fresh_adapter_then_one_device() {
    // Initialization succeeds on a fresh adapter: the device list is empty.
    let mut manager = BluetoothManager::new();
    assert!(!manager.is_initialized());
    assert_eq!(manager.complete_initialization(Vec::new()), Ok(()));
    assert!(manager.is_initialized());
    assert!(manager.get_devices().is_empty());

    // The adapter then reports one paired, disconnected device; a refresh
    // makes the registry reflect exactly that record.
    let snapshot = vec![device("11:22:33:44:55:66", true, false)];
    assert_eq!(manager.apply_refresh(Some(snapshot)), Ok(()));
    let devices = manager.get_devices();
    assert_eq!(devices.len(), 1);
    assert_eq!(devices[0].address, "11:22:33:44:55:66");
    assert!(devices[0].paired);
    assert!(!devices[0].connected);
}

#[test]
fn refresh_replaces_wholesale() {
    let mut manager = BluetoothManager::new();
    manager
        .complete_initialization(vec![
            device("11:22:33:44:55:66", true, true),
            device("AA:BB:CC:DD:EE:FF", false, false),
        ])
        .unwrap();
    assert_eq!(manager.get_devices().len(), 2);

    // The next snapshot fully replaces the previous one: no merge, no stale
    // entry for the device that disappeared.
    let next = vec![device("77:88:99:AA:BB:CC", false, true)];
    assert_eq!(manager.apply_refresh(Some(next)), Ok(()));
    let devices = manager.get_devices();
    assert_eq!(devices.len(), 1);
    assert_eq!(devices[0].address, "77:88:99:AA:BB:CC");
}

#[test]
fn failed_refresh_keeps_previous_snapshot() {
    let mut manager = BluetoothManager::new();
    manager
        .complete_initialization(vec![device("11:22:33:44:55:66", true, false)])
        .unwrap();
    assert_eq!(
        manager.apply_refresh(None),
        Err(BtError::ExternalCallFailure)
    );
    let devices = manager.get_devices();
    assert_eq!(devices.len(), 1);
    assert_eq!(devices[0].address, "11:22:33:44:55:66");
}

#[test]
fn unpair_removes_entry_even_when_refresh_fails() {
    let mut manager = BluetoothManager::new();
    manager
        .complete_initialization(vec![
            device("11:22:33:44:55:66", true, false),
            device("AA:BB:CC:DD:EE:FF", true, true),
        ])
        .unwrap();

    // The unpair removes the entry directly, without waiting for a refresh.
    assert_eq!(manager.record_unpair("11:22:33:44:55:66"), Ok(()));
    assert!(!manager.knows_address("11:22:33:44:55:66"));

    // A forced refresh failure must not bring the entry back.
    assert_eq!(
        manager.apply_refresh(None),
        Err(BtError::ExternalCallFailure)
    );
    let devices = manager.get_devices();
    assert_eq!(devices.len(), 1);
    assert_eq!(devices[0].address, "AA:BB:CC:DD:EE:FF");
    assert!(!manager.knows_address("11:22:33:44:55:66"));
}

#[test]
fn operations_before_initialization() {
    let mut manager = BluetoothManager::new();
    // Read-like queries answer with their defaults.
    assert!(manager.get_devices().is_empty());
    let status = manager.build_status(Some(true), Some(true), Some(true));
    assert!(!status.adapter_powered);
    assert!(!status.discoverable);
    assert!(!status.pairable);
    assert!(status.devices.is_empty());
    assert!(manager.audio_sinks_from(Some(vec!["0000110b".to_string()])).is_empty());
    // Mutating operations fail explicitly.
    assert_eq!(
        manager.apply_refresh(Some(Vec::new())),
        Err(BtError::NotInitialized)
    );
    assert_eq!(
        manager.record_unpair("11:22:33:44:55:66"),
        Err(BtError::NotInitialized)
    );
    assert_eq!(
        manager.device_command_gate("11:22:33:44:55:66"),
        Err(BtError::NotInitialized)
    );
}

#[test]
fn command_gate_checks_address() {
    let mut manager = BluetoothManager::new();
    manager.complete_initialization(Vec::new()).unwrap();
    assert_eq!(manager.device_command_gate("11:22:33:44:55:66"), Ok(()));
    assert_eq!(
        manager.device_command_gate("not an address"),
        Err(BtError::ResolutionFailure)
    );
}

#[test]
fn status_reflects_live_flags_once_initialized() {
    let mut manager = BluetoothManager::new();
    manager
        .complete_initialization(vec![device("11:22:33:44:55:66", true, false)])
        .unwrap();
    let status = manager.build_status(Some(true), Some(false), Some(true));
    assert!(status.adapter_powered);
    assert!(!status.discoverable);
    assert!(status.pairable);
    assert_eq!(status.devices.len(), 1);
    // A flag whose live read failed reads as false, never stale.
    let status = manager.build_status(None, Some(true), None);
    assert!(!status.adapter_powered);
    assert!(status.discoverable);
    assert!(!status.pairable);
}

#[test]
fn audio_sinks_filters_advertised_identifiers() {
    let mut manager = BluetoothManager::new();
    manager.complete_initialization(Vec::new()).unwrap();
    let uuids = vec![
        "0000110b-0000-1000-8000-00805f9b34fb".to_string(),
        "0000180f-0000-1000-8000-00805f9b34fb".to_string(),
    ];
    let sinks = manager.audio_sinks_from(Some(uuids));
    assert_eq!(sinks, vec!["0000110b-0000-1000-8000-00805f9b34fb".to_string()]);
    assert!(manager.audio_sinks_from(None).is_empty());
}

#[test]
fn inadmissible_snapshot_fails_initialization() {
    let mut manager = BluetoothManager::new();
    let twice = vec![
        device("11:22:33:44:55:66", true, false),
        device("11:22:33:44:55:66", false, false),
    ];
    assert_eq!(
        manager.complete_initialization(twice),
        Err(BtError::ExternalCallFailure)
    );
    assert!(!manager.is_initialized());
    assert!(manager.get_devices().is_empty());
}

#[test]
fn abort_leaves_session_uninitialized() {
    let mut manager = BluetoothManager::new();
    manager
        .complete_initialization(vec![device("11:22:33:44:55:66", true, false)])
        .unwrap();
    manager.abort_initialization();
    assert!(!manager.is_initialized());
    // The cache itself is untouched by the abort.
    assert_eq!(manager.get_devices().len(), 1);
}

#[test]
fn registry_direct_operations() {
    let mut registry = DeviceRegistry::new();
    assert_eq!(registry.len(), 0);
    let snapshot = vec![
        device("11:22:33:44:55:66", true, false),
        device("AA:BB:CC:DD:EE:FF", false, true),
    ];
    assert!(registry.replace_all(snapshot));
    assert_eq!(registry.len(), 2);
    assert!(registry.contains_address("AA:BB:CC:DD:EE:FF"));
    assert!(registry.remove_address("AA:BB:CC:DD:EE:FF"));
    assert!(!registry.contains_address("AA:BB:CC:DD:EE:FF"));
    assert!(!registry.remove_address("AA:BB:CC:DD:EE:FF"));
    assert_eq!(registry.len(), 1);
    let all = registry.all_devices();
    assert_eq!(all.len(), 1);
    assert_eq!(all[0].address, "11:22:33:44:55:66");
}

#[test]
fn record_defaults_fields_independently() {
    let d = record_from_fields(
        "11:22:33:44:55:66".to_string(),
        Some("Headset".to_string()),
        None,
        Some(true),
        None,
        Some(false),
    );
    assert_eq!(d.address, "11:22:33:44:55:66");
    assert_eq!(d.name.as_deref(), Some("Headset"));
    assert_eq!(d.class, None);
    assert!(d.paired);
    assert!(!d.connected);
    assert!(!d.trusted);
}

#[test]
fn error_messages_render() {
    assert_eq!(BtError::NoAdapterFound.message(), "No Bluetooth adapter found");
    assert_eq!(
        BtError::NotInitialized.message(),
        "Bluetooth manager is not initialized"
    );
    assert_eq!(
        BtError::ResolutionFailure.message(),
        "Device address could not be resolved"
    );
    assert_eq!(BtError::ExternalCallFailure.message(), "Bluetooth operation failed");
}
